use crate::entry_status::LaunchdEntryStatus;
use crate::job_type_filter::JobTypeFilter;
use crate::omnibox::OmniboxCommand;
use crate::omnibox::OmniboxError;
use crate::omnibox::OmniboxMode;
use crate::omnibox::OmniboxState;
use crate::plist::LaunchdPlist;
use crate::query::list_all;
use crate::query::listed_labels;
use crate::text::lemma_lex_less_irreflexive;
use crate::text::lemma_lex_less_transitive;
use crate::text::lemma_lex_not_less_transitive;
use crate::text::lex_less;
use crate::text::str_contains_ignoring_case;
use crate::text::str_eq;
use crate::text::str_less;
use crate::text::text_contains_ignoring_case;
use crate::text::text_less;
use crate::xpc_dictionary::labels_of;
use crate::xpc_error::XPCError;
use crate::xpc_object::XPCObject;
use vstd::prelude::*;
use vstd::utf8::encode_utf8;

verus! {

/// One row of the service list.
#[derive(Debug, PartialEq, Eq)]
pub struct ServiceListItem {
    pub name: String,
    pub status: LaunchdEntryStatus,
    pub job_type_filter: JobTypeFilter,
}

impl Clone for ServiceListItem {
    fn clone(&self) -> (r: Self)
        ensures
            r == *self,
    {
        ServiceListItem {
            name: self.name.clone(),
            status: self.status.clone(),
            job_type_filter: self.job_type_filter,
        }
    }
}

/// Whether a label passes the filter on names: an empty filter lets every
/// label through, any other one those in which it occurs, ASCII letters
/// compared without regard to case.
pub open spec fn name_matches(label: Seq<char>, filter: Seq<char>) -> bool {
    filter.len() == 0 || text_contains_ignoring_case(label, filter)
}

/// The test of `name_matches` for one filter.
pub open spec fn matching(filter: Seq<char>) -> spec_fn(Seq<char>) -> bool {
    |label: Seq<char>| name_matches(label, filter)
}

/// The test of not being among `labels`.
pub open spec fn absent_from(labels: Seq<Seq<char>>) -> spec_fn(Seq<char>) -> bool {
    |label: Seq<char>| !labels.contains(label)
}

/// The labels that the list is made of: those with a configuration, then the
/// running ones without, and of all these the ones that pass the filter on
/// names.
pub open spec fn candidates_of(
    configured: Seq<Seq<char>>,
    running: Seq<Seq<char>>,
    filter: Seq<char>,
) -> Seq<Seq<char>> {
    (configured + running.filter(absent_from(configured))).filter(matching(filter))
}

/// The properties of a job: those that its configuration declares, or, without
/// a configuration, only whether it is loaded.
pub open spec fn entry_filter_of(plist: Option<LaunchdPlist>, is_loaded: bool) -> JobTypeFilter {
    match plist {
        Some(p) => p.spec_job_type_filter(is_loaded),
        None => if is_loaded {
            JobTypeFilter::spec_loaded()
        } else {
            JobTypeFilter { bits: 0 }
        },
    }
}

/// The row that an entry gives, if it gives one: the entry has to pass the
/// filter on names, and its properties have to hold every property of the
/// filter on job properties, unless that filter is empty.
pub open spec fn presented(
    entry: (String, LaunchdEntryStatus),
    running: Seq<Seq<char>>,
    name_filter: Seq<char>,
    job_filter: JobTypeFilter,
) -> Option<ServiceListItem> {
    let properties = entry_filter_of(entry.1.plist, running.contains(entry.0@));
    if !name_matches(entry.0@, name_filter) {
        None
    } else if !job_filter.spec_is_empty() && !properties.spec_contains(job_filter) {
        None
    } else {
        Some(ServiceListItem { name: entry.0, status: entry.1, job_type_filter: properties })
    }
}

/// `presented` for one state of the list.
pub open spec fn presenting(
    running: Seq<Seq<char>>,
    name_filter: Seq<char>,
    job_filter: JobTypeFilter,
) -> spec_fn((String, LaunchdEntryStatus)) -> Option<ServiceListItem> {
    |entry: (String, LaunchdEntryStatus)| presented(entry, running, name_filter, job_filter)
}

/// Whether a row is of a loaded job.
pub open spec fn is_loaded_row(item: ServiceListItem) -> bool {
    item.job_type_filter.spec_intersects(JobTypeFilter::spec_loaded())
}

/// Whether the row `a` has its place strictly before the row `b`: jobs that are
/// not loaded come before loaded ones, and within each group the names are in
/// the order of their bytes.
pub open spec fn item_before(a: ServiceListItem, b: ServiceListItem) -> bool {
    (!is_loaded_row(a) && is_loaded_row(b)) || (is_loaded_row(a) == is_loaded_row(b) && text_less(
        a.name@,
        b.name@,
    ))
}

/// Whether no row stands behind one that it should come before.
pub open spec fn in_order(items: Seq<ServiceListItem>) -> bool {
    forall|i: int, j: int| 0 <= i < j < items.len() ==> !item_before(items[j], items[i])
}

/// Where a new row goes into rows that are in order: behind every row that it
/// does not come before.
pub open spec fn insertion_point(items: Seq<ServiceListItem>, item: ServiceListItem) -> int
    decreases items.len(),
{
    if items.len() == 0 {
        0
    } else if item_before(item, items.last()) {
        insertion_point(items.drop_last(), item)
    } else {
        items.len() as int
    }
}

/// The rows in order, each put in its place in turn: rows that are equal in
/// order keep the order in which they came.
pub open spec fn sorted_rows(items: Seq<ServiceListItem>) -> Seq<ServiceListItem>
    decreases items.len(),
{
    if items.len() == 0 {
        items
    } else {
        let front = sorted_rows(items.drop_last());
        front.insert(insertion_point(front, items.last()), items.last())
    }
}

/// A row never comes before one that comes before it.
pub proof fn lemma_item_before_asymmetric(a: ServiceListItem, b: ServiceListItem)
    requires
        item_before(a, b),
    ensures
        !item_before(b, a),
{
    let x = encode_utf8(a.name@);
    let y = encode_utf8(b.name@);
    if lex_less(x, y) && lex_less(y, x) {
        lemma_lex_less_transitive(x, y, x);
        lemma_lex_less_irreflexive(x);
    }
}

/// Where `c` does not come before `b` nor `b` before `a`, `c` does not come
/// before `a`.
pub proof fn lemma_item_not_before_transitive(a: ServiceListItem, b: ServiceListItem, c: ServiceListItem)
    requires
        !item_before(b, a),
        !item_before(c, b),
    ensures
        !item_before(c, a),
{
    let x = encode_utf8(a.name@);
    let y = encode_utf8(b.name@);
    let z = encode_utf8(c.name@);
    if !lex_less(y, x) && !lex_less(z, y) {
        lemma_lex_not_less_transitive(x, y, z);
    }
}

/// The insertion point lies behind every row that the new row does not come
/// before, and before every row that it comes before.
pub proof fn lemma_insertion_point(items: Seq<ServiceListItem>, item: ServiceListItem)
    ensures
        0 <= insertion_point(items, item) <= items.len(),
        forall|k: int|
            insertion_point(items, item) <= k < items.len() ==> item_before(item, #[trigger] items[k]),
        insertion_point(items, item) > 0 ==> !item_before(
            item,
            items[insertion_point(items, item) - 1],
        ),
    decreases items.len(),
{
    if items.len() > 0 && item_before(item, items.last()) {
        let front = items.drop_last();
        lemma_insertion_point(front, item);
        assert forall|k: int| insertion_point(items, item) <= k < items.len() implies item_before(
            item,
            #[trigger] items[k],
        ) by {
            if k < front.len() {
                assert(items[k] == front[k]);
            }
        }
        if insertion_point(items, item) > 0 {
            assert(items[insertion_point(items, item) - 1] == front[insertion_point(front, item) - 1]);
        }
    }
}

/// Rows in order stay in order when a row is put in at its insertion point.
pub proof fn lemma_insert_keeps_order(items: Seq<ServiceListItem>, item: ServiceListItem)
    requires
        in_order(items),
    ensures
        in_order(items.insert(insertion_point(items, item), item)),
{
    let at = insertion_point(items, item);
    let after = items.insert(at, item);
    lemma_insertion_point(items, item);
    assert forall|i: int, j: int| 0 <= i < j < after.len() implies !item_before(
        after[j],
        after[i],
    ) by {
        if j < at {
            assert(after[i] == items[i] && after[j] == items[j]);
        } else if j == at {
            assert(after[i] == items[i]);
            if i < at - 1 {
                lemma_item_not_before_transitive(items[i], items[at - 1], item);
            }
        } else if i < at {
            assert(after[i] == items[i] && after[j] == items[j - 1]);
        } else if i == at {
            assert(after[j] == items[j - 1]);
            lemma_item_before_asymmetric(item, items[j - 1]);
        } else {
            assert(after[i] == items[i - 1] && after[j] == items[j - 1]);
        }
    }
}

/// The sorted rows are in order, and they are the rows that were given, each
/// as often as it was given.
pub proof fn lemma_sorted_rows(items: Seq<ServiceListItem>)
    ensures
        in_order(sorted_rows(items)),
        sorted_rows(items).to_multiset() == items.to_multiset(),
        sorted_rows(items).len() == items.len(),
    decreases items.len(),
{
    if items.len() == 0 {
    } else {
        let front = sorted_rows(items.drop_last());
        lemma_sorted_rows(items.drop_last());
        lemma_insert_keeps_order(front, items.last());
        lemma_insertion_point(front, items.last());
        vstd::seq_lib::to_multiset_insert(front, insertion_point(front, items.last()), items.last());
        vstd::seq_lib::to_multiset_build(items.drop_last(), items.last());
        assert(items.drop_last().push(items.last()) =~= items);
    }
}

/// Whether `label` is among `labels`.
pub fn contains_label(labels: &Vec<String>, label: &str) -> (r: bool)
    ensures
        r == labels_of(labels@).contains(label@),
{
    let mut i: usize = 0;
    while i < labels.len()
        invariant
            i <= labels@.len(),
            forall|j: int| 0 <= j < i ==> labels_of(labels@)[j] != label@,
        decreases labels@.len() - i,
    {
        if str_eq(labels[i].as_str(), label) {
            assert(labels_of(labels@)[i as int] == label@);
            return true;
        }
        i += 1;
    }
    false
}

/// What the service list shows, and how it is narrowed.
///
/// No label stands twice among the running jobs.
#[derive(Debug)]
pub struct ServiceListView {
    running_jobs: Vec<String>,
    label_filter: String,
    job_type_filter: JobTypeFilter,
}

impl ServiceListView {
    #[verifier::type_invariant]
    spec fn distinct(&self) -> bool {
        labels_of(self.running_jobs@).no_duplicates()
    }

    /// The labels of the jobs that run, each once.
    pub closed spec fn running_labels(&self) -> Seq<Seq<char>> {
        labels_of(self.running_jobs@)
    }

    /// The filter on names.
    pub closed spec fn name_filter(&self) -> Seq<char> {
        self.label_filter@
    }

    /// The filter on job properties.
    pub closed spec fn job_filter(&self) -> JobTypeFilter {
        self.job_type_filter
    }

    /// Whether this list is `before` after it has taken over what the command
    /// line holds: the filter on names while names are being filtered, the
    /// filter on job properties while those are, both when the command line is
    /// idle, and nothing in any other mode.
    pub open spec fn took_over(&self, before: &ServiceListView, state: OmniboxState) -> bool {
        &&& self.running_labels() == before.running_labels()
        &&& self.name_filter() == if state.mode == OmniboxMode::LabelFilter || state.mode
            == OmniboxMode::Idle {
            state.label_filter@
        } else {
            before.name_filter()
        }
        &&& self.job_filter() == if state.mode == OmniboxMode::JobTypeFilter || state.mode
            == OmniboxMode::Idle {
            state.job_type_filter
        } else {
            before.job_filter()
        }
    }

    /// Whether this list shows and filters what `before` does.
    pub open spec fn same_as(&self, before: &ServiceListView) -> bool {
        &&& self.running_labels() == before.running_labels()
        &&& self.name_filter() == before.name_filter()
        &&& self.job_filter() == before.job_filter()
    }

    /// A list with no running jobs, no filter on names, and the filter on job
    /// properties that shows loaded jobs.
    pub fn new() -> (r: ServiceListView)
        ensures
            r.running_labels() == Seq::<Seq<char>>::empty(),
            r.name_filter() == Seq::<char>::empty(),
            r.job_filter() == JobTypeFilter::spec_loaded(),
    {
        let r = ServiceListView {
            running_jobs: Vec::new(),
            label_filter: String::new(),
            job_type_filter: JobTypeFilter::launchk_default(),
        };
        assert(labels_of(r.running_jobs@) =~= Seq::<Seq<char>>::empty());
        r
    }

    /// The labels of the jobs that run.
    pub fn running_jobs(&self) -> (r: &Vec<String>)
        ensures
            labels_of(r@) == self.running_labels(),
            self.running_labels().no_duplicates(),
    {
        proof {
            use_type_invariant(self);
        }
        &self.running_jobs
    }

    /// The filter on names.
    pub fn label_filter(&self) -> (r: &String)
        ensures
            r@ == self.name_filter(),
    {
        &self.label_filter
    }

    /// The filter on job properties.
    pub fn job_type_filter(&self) -> (r: JobTypeFilter)
        ensures
            r == self.job_filter(),
    {
        self.job_type_filter
    }

    /// Whether the job with this label runs.
    pub fn is_running(&self, label: &str) -> (r: bool)
        ensures
            r == self.running_labels().contains(label@),
    {
        contains_label(&self.running_jobs, label)
    }

    /// Takes `labels` as the jobs that run, in place of those known before. A
    /// label that comes more than once counts once.
    pub fn set_running_jobs(&mut self, labels: Vec<String>)
        ensures
            final(self).running_labels().no_duplicates(),
            final(self).running_labels().to_set() == labels_of(labels@).to_set(),
            final(self).name_filter() == old(self).name_filter(),
            final(self).job_filter() == old(self).job_filter(),
    {
        let mut kept: Vec<String> = Vec::new();
        let mut i: usize = 0;
        assert(labels_of(kept@) =~= Seq::<Seq<char>>::empty());
        assert(labels_of(labels@).take(0) =~= Seq::<Seq<char>>::empty());
        while i < labels.len()
            invariant
                i <= labels@.len(),
                labels_of(kept@).no_duplicates(),
                labels_of(kept@).to_set() == labels_of(labels@).take(i as int).to_set(),
            decreases labels@.len() - i,
        {
            let ghost before = labels_of(kept@);
            let ghost seen = labels_of(labels@).take(i as int);
            proof {
                assert(labels_of(labels@).take(i + 1) =~= seen.push(labels@[i as int]@));
                seen.lemma_push_to_set_commute(labels@[i as int]@);
            }
            if !contains_label(&kept, labels[i].as_str()) {
                kept.push(labels[i].clone());
                proof {
                    assert(labels_of(kept@) =~= before.push(labels@[i as int]@));
                    before.lemma_push_to_set_commute(labels@[i as int]@);
                }
            } else {
                proof {
                    assert(before.to_set().contains(labels@[i as int]@));
                    assert(before.to_set().insert(labels@[i as int]@) =~= before.to_set());
                }
            }
            i += 1;
        }
        assert(labels_of(labels@).take(labels@.len() as int) =~= labels_of(labels@));
        self.running_jobs = kept;
    }

    /// Takes over what the command line holds: the filter on names while names
    /// are being filtered, the filter on job properties while those are, both
    /// when the command line is idle, and nothing in any other mode. There is
    /// never a command to follow.
    pub fn handle_state_update(&mut self, state: OmniboxState) -> (r: Result<
        Option<OmniboxCommand>,
        OmniboxError,
    >)
        ensures
            r == Ok::<Option<OmniboxCommand>, OmniboxError>(None),
            final(self).took_over(old(self), state),
    {
        proof {
            use_type_invariant(&*self);
        }
        let OmniboxState { mode, label_filter, job_type_filter, command_filter: _ } = state;
        match mode {
            OmniboxMode::LabelFilter => {
                self.label_filter = label_filter;
            },
            OmniboxMode::JobTypeFilter => {
                self.job_type_filter = job_type_filter;
            },
            OmniboxMode::Idle => {
                self.label_filter = label_filter;
                self.job_type_filter = job_type_filter;
            },
            _ => {},
        }
        Ok(None)
    }

    /// The labels for which the list needs a status: those with a
    /// configuration, then the running ones without, and of all these the ones
    /// that pass the filter on names.
    pub fn candidate_labels(&self, configured: &Vec<String>) -> (r: Vec<String>)
        ensures
            labels_of(r@) == candidates_of(
                labels_of(configured@),
                self.running_labels(),
                self.name_filter(),
            ),
    {
        let ghost known = labels_of(configured@);
        let ghost running = labels_of(self.running_jobs@);
        let ghost wanted = matching(self.label_filter@);
        let ghost fresh = absent_from(known);
        let mut out: Vec<String> = Vec::new();
        let mut i: usize = 0;
        proof {
            reveal(Seq::filter);
            assert(known.take(0) =~= Seq::<Seq<char>>::empty());
            assert(labels_of(out@) =~= known.take(0).filter(wanted));
        }
        while i < configured.len()
            invariant
                i <= configured@.len(),
                known == labels_of(configured@),
                wanted == matching(self.label_filter@),
                labels_of(out@) == known.take(i as int).filter(wanted),
            decreases configured@.len() - i,
        {
            let ghost before = labels_of(out@);
            proof {
                assert(known.take(i + 1) =~= known.take(i as int).push(known[i as int]));
                known.take(i as int).lemma_filter_push(known[i as int], wanted);
            }
            if self.passes_name_filter(configured[i].as_str()) {
                out.push(configured[i].clone());
                assert(labels_of(out@) =~= before.push(known[i as int]));
            }
            i += 1;
        }
        let ghost first = known.filter(wanted);
        let mut j: usize = 0;
        proof {
            assert(known.take(configured@.len() as int) =~= known);
            assert(running.take(0) =~= Seq::<Seq<char>>::empty());
            assert(running.take(0).filter(fresh).filter(wanted) =~= Seq::<Seq<char>>::empty());
            assert(labels_of(out@) =~= first + running.take(0).filter(fresh).filter(wanted));
        }
        while j < self.running_jobs.len()
            invariant
                j <= self.running_jobs@.len(),
                known == labels_of(configured@),
                running == labels_of(self.running_jobs@),
                wanted == matching(self.label_filter@),
                fresh == absent_from(known),
                first == known.filter(wanted),
                labels_of(out@) == first + running.take(j as int).filter(fresh).filter(wanted),
            decreases self.running_jobs@.len() - j,
        {
            let ghost before = labels_of(out@);
            let ghost label = running[j as int];
            proof {
                assert(running.take(j + 1) =~= running.take(j as int).push(label));
                running.take(j as int).lemma_filter_push(label, fresh);
                running.take(j as int).filter(fresh).lemma_filter_push(label, wanted);
            }
            if !contains_label(configured, self.running_jobs[j].as_str())
                && self.passes_name_filter(self.running_jobs[j].as_str()) {
                out.push(self.running_jobs[j].clone());
                assert(labels_of(out@) =~= before.push(label));
                assert(before.push(label) =~= first + running.take(j as int).filter(fresh).filter(
                    wanted,
                ).push(label));
            }
            j += 1;
        }
        proof {
            assert(running.take(self.running_jobs@.len() as int) =~= running);
            Seq::filter_distributes_over_add(known, running.filter(fresh), wanted);
        }
        out
    }

    /// Whether `label` passes the filter on names.
    pub fn passes_name_filter(&self, label: &str) -> (r: bool)
        ensures
            r == name_matches(label@, self.name_filter()),
    {
        self.label_filter.as_str().is_empty() || str_contains_ignoring_case(
            label,
            self.label_filter.as_str(),
        )
    }

    /// The row that `entry` gives in this list, if it gives one.
    pub fn present_entry(&self, entry: &(String, LaunchdEntryStatus)) -> (r: Option<ServiceListItem>)
        ensures
            r == presented(*entry, self.running_labels(), self.name_filter(), self.job_filter()),
    {
        if !self.passes_name_filter(entry.0.as_str()) {
            return None;
        }
        let is_loaded = self.is_running(entry.0.as_str());
        let properties = match &entry.1.plist {
            Some(plist) => plist.job_type_filter(is_loaded),
            None => {
                if is_loaded {
                    JobTypeFilter::loaded()
                } else {
                    JobTypeFilter::empty()
                }
            },
        };
        if !self.job_type_filter.is_empty() && !properties.contains(self.job_type_filter) {
            return None;
        }
        Some(
            ServiceListItem {
                name: entry.0.clone(),
                status: entry.1.clone(),
                job_type_filter: properties,
            },
        )
    }

    /// The rows of the list, from the labels with their statuses: the rows of
    /// the entries that pass the two filters, jobs that are not loaded first,
    /// then the loaded ones, each group by name. Rows that are equal in this
    /// order keep the order of their entries.
    pub fn present_services(&self, entries: &Vec<(String, LaunchdEntryStatus)>) -> (r: Vec<
        ServiceListItem,
    >)
        ensures
            r@ == sorted_rows(
                entries@.filter_map(
                    presenting(self.running_labels(), self.name_filter(), self.job_filter()),
                ),
            ),
    {
        let ghost choose_row = presenting(
            self.running_labels(),
            self.name_filter(),
            self.job_filter(),
        );
        let mut out: Vec<ServiceListItem> = Vec::new();
        let mut i: usize = 0;
        proof {
            assert(entries@.take(0) =~= Seq::<(String, LaunchdEntryStatus)>::empty());
        }
        while i < entries.len()
            invariant
                i <= entries@.len(),
                choose_row == presenting(
                    self.running_labels(),
                    self.name_filter(),
                    self.job_filter(),
                ),
                out@ == sorted_rows(entries@.take(i as int).filter_map(choose_row)),
            decreases entries@.len() - i,
        {
            let ghost chosen = entries@.take(i as int).filter_map(choose_row);
            proof {
                entries@.lemma_filter_map_take_succ(choose_row, i as int);
            }
            match self.present_entry(&entries[i]) {
                Some(item) => {
                    proof {
                        assert(entries@.take(i + 1).filter_map(choose_row) =~= chosen.push(item));
                        assert(chosen.push(item).drop_last() =~= chosen);
                    }
                    insert_row(&mut out, item);
                },
                None => {
                    proof {
                        assert(entries@.take(i + 1).filter_map(choose_row) =~= chosen);
                    }
                },
            }
            i += 1;
        }
        proof {
            assert(entries@.take(entries@.len() as int) =~= entries@);
        }
        out
    }
}

/// Takes the reply to a listing as the jobs that run: the labels that it names,
/// and none when the listing failed. The filters stay as they are.
pub fn poll_running_jobs(view: &mut ServiceListView, reply: &Result<XPCObject, XPCError>)
    ensures
        final(view).running_labels().no_duplicates(),
        final(view).running_labels().to_set() == listed_labels(*reply),
        final(view).name_filter() == old(view).name_filter(),
        final(view).job_filter() == old(view).job_filter(),
{
    view.set_running_jobs(list_all(reply));
}

/// Whether the row `a` has its place strictly before the row `b`.
pub fn row_before(a: &ServiceListItem, b: &ServiceListItem) -> (r: bool)
    ensures
        r == item_before(*a, *b),
{
    let loaded_a = a.job_type_filter.intersects(JobTypeFilter::loaded());
    let loaded_b = b.job_type_filter.intersects(JobTypeFilter::loaded());
    if !loaded_a && loaded_b {
        true
    } else if loaded_a && !loaded_b {
        false
    } else {
        str_less(a.name.as_str(), b.name.as_str())
    }
}

/// Puts a row into rows at its insertion point.
pub fn insert_row(rows: &mut Vec<ServiceListItem>, item: ServiceListItem)
    ensures
        final(rows)@ == old(rows)@.insert(insertion_point(old(rows)@, item), item),
{
    let mut at: usize = rows.len();
    proof {
        assert(rows@.take(at as int) =~= rows@);
    }
    while at > 0 && row_before(&item, &rows[at - 1])
        invariant
            at <= rows@.len(),
            insertion_point(rows@, item) == insertion_point(rows@.take(at as int), item),
        decreases at,
    {
        proof {
            assert(rows@.take(at as int).drop_last() =~= rows@.take(at - 1));
        }
        at -= 1;
    }
    rows.insert(at, item);
}

} // verus!
