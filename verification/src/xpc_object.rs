use crate::xpc_error::XPCError;
use vstd::prelude::*;
use vstd::string::StrSliceExecFns;
use vstd::utf8::decode_utf8;
use vstd::utf8::encode_utf8;
use vstd::utf8::valid_utf8;

verus! {

/// The runtime tag of a native object.
#[derive(Clone, Copy, Debug, PartialEq, Eq, Structural)]
pub enum XPCType {
    Null,
    Bool,
    Int64,
    UInt64,
    Double,
    String,
    Data,
    MachSend,
    Shmem,
    Array,
    Dictionary,
}

/// What a native object is, as a mathematical value.
///
/// A string is the bytes that the runtime holds, which need not be valid text.
/// A double is its IEEE 754 bit pattern. A dictionary is the pairs in the order
/// in which the runtime hands them out; a key may in principle come twice.
pub enum XPCValue {
    Null,
    Bool(bool),
    Int64(i64),
    UInt64(u64),
    Double(u64),
    Text(Seq<u8>),
    Data(Seq<u8>),
    MachSend(u32),
    Shmem { region: u64, size: u64 },
    Array(Seq<XPCValue>),
    Dictionary(Seq<(Seq<char>, XPCValue)>),
}

impl XPCValue {
    /// The runtime tag of this value.
    pub open spec fn tag(self) -> XPCType {
        match self {
            XPCValue::Null => XPCType::Null,
            XPCValue::Bool(_) => XPCType::Bool,
            XPCValue::Int64(_) => XPCType::Int64,
            XPCValue::UInt64(_) => XPCType::UInt64,
            XPCValue::Double(_) => XPCType::Double,
            XPCValue::Text(_) => XPCType::String,
            XPCValue::Data(_) => XPCType::Data,
            XPCValue::MachSend(_) => XPCType::MachSend,
            XPCValue::Shmem { .. } => XPCType::Shmem,
            XPCValue::Array(_) => XPCType::Array,
            XPCValue::Dictionary(_) => XPCType::Dictionary,
        }
    }
}

/// A native object held by value: its tag and what it contains.
#[derive(Debug, PartialEq, Eq)]
pub enum XPCObject {
    Null,
    Bool(bool),
    Int64(i64),
    UInt64(u64),
    /// The IEEE 754 bit pattern of the number.
    Double(u64),
    /// The bytes of the string, without a terminator.
    String(Vec<u8>),
    Data(Vec<u8>),
    /// A send right, by the name of its port.
    MachSend(u32),
    /// A region of memory shared with the peer: where it starts and how long it is.
    Shmem { region: u64, size: u64 },
    Array(Vec<XPCObject>),
    /// The pairs of a dictionary, in the order of the runtime's walk.
    Dictionary(Vec<(String, XPCObject)>),
}

/// The value of an object.
pub open spec fn value_of(object: XPCObject) -> XPCValue
    decreases object,
{
    match object {
        XPCObject::Null => XPCValue::Null,
        XPCObject::Bool(b) => XPCValue::Bool(b),
        XPCObject::Int64(i) => XPCValue::Int64(i),
        XPCObject::UInt64(u) => XPCValue::UInt64(u),
        XPCObject::Double(bits) => XPCValue::Double(bits),
        XPCObject::String(bytes) => XPCValue::Text(bytes@),
        XPCObject::Data(bytes) => XPCValue::Data(bytes@),
        XPCObject::MachSend(port) => XPCValue::MachSend(port),
        XPCObject::Shmem { region, size } => XPCValue::Shmem { region, size },
        XPCObject::Array(items) => XPCValue::Array(values_of(items@)),
        XPCObject::Dictionary(pairs) => XPCValue::Dictionary(pairs_of(pairs@)),
    }
}

/// The values of a run of objects, in order.
pub open spec fn values_of(items: Seq<XPCObject>) -> Seq<XPCValue>
    decreases items,
{
    if items.len() == 0 {
        Seq::empty()
    } else {
        values_of(items.drop_last()).push(value_of(items.last()))
    }
}

/// The keys and values of a run of pairs, in order.
pub open spec fn pairs_of(pairs: Seq<(String, XPCObject)>) -> Seq<(Seq<char>, XPCValue)>
    decreases pairs,
{
    if pairs.len() == 0 {
        Seq::empty()
    } else {
        pairs_of(pairs.drop_last()).push((pairs.last().0@, value_of(pairs.last().1)))
    }
}

impl View for XPCObject {
    type V = XPCValue;

    open spec fn view(&self) -> XPCValue {
        value_of(*self)
    }
}

/// `values_of` item by item.
pub proof fn lemma_values_of(items: Seq<XPCObject>)
    ensures
        values_of(items).len() == items.len(),
        forall|i: int| 0 <= i < items.len() ==> #[trigger] values_of(items)[i] == items[i]@,
    decreases items.len(),
{
    if items.len() > 0 {
        lemma_values_of(items.drop_last());
    }
}

/// `pairs_of` pair by pair.
pub proof fn lemma_pairs_of(pairs: Seq<(String, XPCObject)>)
    ensures
        pairs_of(pairs).len() == pairs.len(),
        forall|i: int|
            0 <= i < pairs.len() ==> #[trigger] pairs_of(pairs)[i] == (pairs[i].0@, pairs[i].1@),
    decreases pairs.len(),
{
    if pairs.len() > 0 {
        lemma_pairs_of(pairs.drop_last());
    }
}

/// A copy of a run of objects, value for value.
pub fn clone_items(items: &Vec<XPCObject>) -> (r: Vec<XPCObject>)
    ensures
        values_of(r@) == values_of(items@),
    decreases items,
{
    let mut out: Vec<XPCObject> = Vec::new();
    let mut i: usize = 0;
    while i < items.len()
        invariant
            i <= items.len(),
            out.len() == i,
            forall|j: int| 0 <= j < i ==> out@[j]@ == items@[j]@,
        decreases items.len() - i,
    {
        out.push(items[i].clone());
        i += 1;
    }
    proof {
        lemma_values_of(out@);
        lemma_values_of(items@);
        assert(values_of(out@) =~= values_of(items@));
    }
    out
}

/// A copy of a run of pairs, key for key and value for value.
pub fn clone_pairs(pairs: &Vec<(String, XPCObject)>) -> (r: Vec<(String, XPCObject)>)
    ensures
        pairs_of(r@) == pairs_of(pairs@),
    decreases pairs,
{
    let mut out: Vec<(String, XPCObject)> = Vec::new();
    let mut i: usize = 0;
    while i < pairs.len()
        invariant
            i <= pairs.len(),
            out.len() == i,
            forall|j: int| 0 <= j < i ==> out@[j].0@ == pairs@[j].0@ && out@[j].1@ == pairs@[j].1@,
        decreases pairs.len() - i,
    {
        out.push((pairs[i].0.clone(), pairs[i].1.clone()));
        i += 1;
    }
    proof {
        lemma_pairs_of(out@);
        lemma_pairs_of(pairs@);
        assert(pairs_of(out@) =~= pairs_of(pairs@));
    }
    out
}

impl Clone for XPCObject {
    /// A second holder of the same object: equal in tag and contents, all the
    /// way down.
    fn clone(&self) -> (r: Self)
        ensures
            r@ == self@,
        decreases self,
    {
        match self {
            XPCObject::Null => XPCObject::Null,
            XPCObject::Bool(b) => XPCObject::Bool(*b),
            XPCObject::Int64(i) => XPCObject::Int64(*i),
            XPCObject::UInt64(u) => XPCObject::UInt64(*u),
            XPCObject::Double(bits) => XPCObject::Double(*bits),
            XPCObject::String(bytes) => XPCObject::String(bytes.clone()),
            XPCObject::Data(bytes) => XPCObject::Data(bytes.clone()),
            XPCObject::MachSend(port) => XPCObject::MachSend(*port),
            XPCObject::Shmem { region, size } => XPCObject::Shmem { region: *region, size: *size },
            XPCObject::Array(items) => {
                let out = clone_items(items);
                XPCObject::Array(out)
            },
            XPCObject::Dictionary(pairs) => {
                let out = clone_pairs(pairs);
                XPCObject::Dictionary(out)
            },
        }
    }
}

impl XPCObject {
    /// The runtime tag of the object.
    pub fn xpc_type(&self) -> (r: XPCType)
        ensures
            r == self@.tag(),
    {
        match self {
            XPCObject::Null => XPCType::Null,
            XPCObject::Bool(_) => XPCType::Bool,
            XPCObject::Int64(_) => XPCType::Int64,
            XPCObject::UInt64(_) => XPCType::UInt64,
            XPCObject::Double(_) => XPCType::Double,
            XPCObject::String(_) => XPCType::String,
            XPCObject::Data(_) => XPCType::Data,
            XPCObject::MachSend(_) => XPCType::MachSend,
            XPCObject::Shmem { .. } => XPCType::Shmem,
            XPCObject::Array(_) => XPCType::Array,
            XPCObject::Dictionary(_) => XPCType::Dictionary,
        }
    }

    /// A double, from its IEEE 754 bit pattern.
    pub fn double(bits: u64) -> (r: XPCObject)
        ensures
            r@ == XPCValue::Double(bits),
    {
        XPCObject::Double(bits)
    }

    /// The bit pattern of a double; `TypeMismatch` for any other tag.
    pub fn double_bits(&self) -> (r: Result<u64, XPCError>)
        ensures
            r == match self@ {
                XPCValue::Double(bits) => Ok::<u64, XPCError>(bits),
                _ => Err(XPCError::TypeMismatch),
            },
    {
        match self {
            XPCObject::Double(bits) => Ok(*bits),
            _ => Err(XPCError::TypeMismatch),
        }
    }

    /// An opaque byte buffer.
    pub fn data(bytes: Vec<u8>) -> (r: XPCObject)
        ensures
            r@ == XPCValue::Data(bytes@),
    {
        XPCObject::Data(bytes)
    }

    /// The ordered sequence of what a walk over a native array delivered. A
    /// walk that the runtime reports as cut short gives `ArrayError` and no part
    /// of the sequence.
    pub fn sequence_from_enumeration(items: Vec<XPCObject>, complete: bool) -> (r: Result<
        Vec<XPCObject>,
        XPCError,
    >)
        ensures
            complete ==> r == Ok::<Vec<XPCObject>, XPCError>(items),
            !complete ==> r == Err::<Vec<XPCObject>, XPCError>(XPCError::ArrayError),
    {
        if complete {
            Ok(items)
        } else {
            Err(XPCError::ArrayError)
        }
    }

    /// The items of an array, in order; `TypeError` for any other tag.
    pub fn to_vec(&self) -> (r: Result<Vec<XPCObject>, XPCError>)
        ensures
            match sequence_of(self@) {
                Ok(items) => r matches Ok(v) && values_of(v@) == items,
                Err(e) => r == Err::<Vec<XPCObject>, XPCError>(e),
            },
    {
        match self {
            XPCObject::Array(items) => {
                let out = clone_items(items);
                Ok(out)
            },
            _ => Err(XPCError::TypeError),
        }
    }
}

/// `String::from_utf8` of std: the bytes as text when they are valid UTF-8, which
/// is then what they decode to, and nothing when they are not.
#[verifier::external_body]
fn text_from_utf8(bytes: Vec<u8>) -> (r: Option<String>)
    ensures
        r is Some <==> valid_utf8(bytes@),
        r matches Some(text) ==> text@ == decode_utf8(bytes@),
{
    match String::from_utf8(bytes) {
        Ok(text) => Some(text),
        Err(_) => None,
    }
}

/// Typed extraction from a native object.
pub trait TryXPCValue<Out> {
    /// Whether `r` is what extraction yields for this object.
    spec fn extracts(&self, r: Result<Out, XPCError>) -> bool;

    /// The primitive that the object holds, or why it cannot be had.
    fn xpc_value(&self) -> (r: Result<Out, XPCError>)
        ensures
            self.extracts(r),
    ;
}

impl TryXPCValue<i64> for XPCObject {
    open spec fn extracts(&self, r: Result<i64, XPCError>) -> bool {
        r == match self@ {
            XPCValue::Int64(v) => Ok::<i64, XPCError>(v),
            _ => Err(XPCError::TypeMismatch),
        }
    }

    fn xpc_value(&self) -> (r: Result<i64, XPCError>) {
        match self {
            XPCObject::Int64(v) => Ok(*v),
            _ => Err(XPCError::TypeMismatch),
        }
    }
}

impl TryXPCValue<u64> for XPCObject {
    open spec fn extracts(&self, r: Result<u64, XPCError>) -> bool {
        r == match self@ {
            XPCValue::UInt64(v) => Ok::<u64, XPCError>(v),
            _ => Err(XPCError::TypeMismatch),
        }
    }

    fn xpc_value(&self) -> (r: Result<u64, XPCError>) {
        match self {
            XPCObject::UInt64(v) => Ok(*v),
            _ => Err(XPCError::TypeMismatch),
        }
    }
}

impl TryXPCValue<bool> for XPCObject {
    open spec fn extracts(&self, r: Result<bool, XPCError>) -> bool {
        r == match self@ {
            XPCValue::Bool(v) => Ok::<bool, XPCError>(v),
            _ => Err(XPCError::TypeMismatch),
        }
    }

    fn xpc_value(&self) -> (r: Result<bool, XPCError>) {
        match self {
            XPCObject::Bool(v) => Ok(*v),
            _ => Err(XPCError::TypeMismatch),
        }
    }
}

impl TryXPCValue<u32> for XPCObject {
    open spec fn extracts(&self, r: Result<u32, XPCError>) -> bool {
        r == match self@ {
            XPCValue::MachSend(port) => Ok::<u32, XPCError>(port),
            _ => Err(XPCError::TypeMismatch),
        }
    }

    fn xpc_value(&self) -> (r: Result<u32, XPCError>) {
        match self {
            XPCObject::MachSend(port) => Ok(*port),
            _ => Err(XPCError::TypeMismatch),
        }
    }
}

impl TryXPCValue<String> for XPCObject {
    open spec fn extracts(&self, r: Result<String, XPCError>) -> bool {
        match self@ {
            XPCValue::Text(bytes) => if valid_utf8(bytes) {
                r matches Ok(text) && text@ == decode_utf8(bytes)
            } else {
                r == Err::<String, XPCError>(XPCError::EncodingError)
            },
            _ => r == Err::<String, XPCError>(XPCError::TypeMismatch),
        }
    }

    fn xpc_value(&self) -> (r: Result<String, XPCError>) {
        match self {
            XPCObject::String(bytes) => {
                match text_from_utf8(bytes.clone()) {
                    Some(text) => Ok(text),
                    None => Err(XPCError::EncodingError),
                }
            },
            _ => Err(XPCError::TypeMismatch),
        }
    }
}

impl TryXPCValue<Vec<u8>> for XPCObject {
    open spec fn extracts(&self, r: Result<Vec<u8>, XPCError>) -> bool {
        match self@ {
            XPCValue::Data(bytes) => r matches Ok(copy) && copy@ == bytes,
            _ => r == Err::<Vec<u8>, XPCError>(XPCError::TypeMismatch),
        }
    }

    fn xpc_value(&self) -> (r: Result<Vec<u8>, XPCError>) {
        match self {
            XPCObject::Data(bytes) => Ok(bytes.clone()),
            _ => Err(XPCError::TypeMismatch),
        }
    }
}

impl From<i64> for XPCObject {
    fn from(v: i64) -> (r: XPCObject)
        ensures
            r@ == XPCValue::Int64(v),
    {
        XPCObject::Int64(v)
    }
}

impl vstd::std_specs::convert::FromSpecImpl<i64> for XPCObject {
    open spec fn obeys_from_spec() -> bool {
        true
    }

    open spec fn from_spec(v: i64) -> XPCObject {
        XPCObject::Int64(v)
    }
}

impl From<u64> for XPCObject {
    fn from(v: u64) -> (r: XPCObject)
        ensures
            r@ == XPCValue::UInt64(v),
    {
        XPCObject::UInt64(v)
    }
}

impl vstd::std_specs::convert::FromSpecImpl<u64> for XPCObject {
    open spec fn obeys_from_spec() -> bool {
        true
    }

    open spec fn from_spec(v: u64) -> XPCObject {
        XPCObject::UInt64(v)
    }
}

impl From<bool> for XPCObject {
    fn from(v: bool) -> (r: XPCObject)
        ensures
            r@ == XPCValue::Bool(v),
    {
        XPCObject::Bool(v)
    }
}

impl vstd::std_specs::convert::FromSpecImpl<bool> for XPCObject {
    open spec fn obeys_from_spec() -> bool {
        true
    }

    open spec fn from_spec(v: bool) -> XPCObject {
        XPCObject::Bool(v)
    }
}

/// A port name becomes a send right.
impl From<u32> for XPCObject {
    fn from(v: u32) -> (r: XPCObject)
        ensures
            r@ == XPCValue::MachSend(v),
    {
        XPCObject::MachSend(v)
    }
}

impl vstd::std_specs::convert::FromSpecImpl<u32> for XPCObject {
    open spec fn obeys_from_spec() -> bool {
        true
    }

    open spec fn from_spec(v: u32) -> XPCObject {
        XPCObject::MachSend(v)
    }
}

/// A text becomes a native string of its UTF-8 bytes.
impl<'a> From<&'a str> for XPCObject {
    fn from(v: &'a str) -> (r: XPCObject)
        ensures
            r@ == XPCValue::Text(encode_utf8(v@)),
    {
        XPCObject::String(v.as_bytes_vec())
    }
}

/// Some vector that holds `bytes`.
pub open spec fn holding(bytes: Seq<u8>) -> Vec<u8> {
    choose|held: Vec<u8>| held@ == bytes
}

/// Two vectors with the same bytes are not known to be one value, so `from` is
/// not held to return this very object: what it returns is stated by its own
/// `ensures`, over the value.
impl<'a> vstd::std_specs::convert::FromSpecImpl<&'a str> for XPCObject {
    open spec fn obeys_from_spec() -> bool {
        false
    }

    open spec fn from_spec(v: &'a str) -> XPCObject {
        XPCObject::String(holding(encode_utf8(v@)))
    }
}

/// An ordered sequence becomes a native array of the same items in the same
/// order.
impl From<Vec<XPCObject>> for XPCObject {
    fn from(v: Vec<XPCObject>) -> (r: XPCObject)
        ensures
            r@ == array_of(values_of(v@)),
    {
        XPCObject::Array(v)
    }
}

impl vstd::std_specs::convert::FromSpecImpl<Vec<XPCObject>> for XPCObject {
    open spec fn obeys_from_spec() -> bool {
        true
    }

    open spec fn from_spec(v: Vec<XPCObject>) -> XPCObject {
        XPCObject::Array(v)
    }
}

/// Text survives the way into a native string and back.
pub proof fn lemma_text_round_trip(text: Seq<char>)
    ensures
        valid_utf8(encode_utf8(text)),
        decode_utf8(encode_utf8(text)) == text,
{
    vstd::utf8::encode_utf8_valid_utf8(text);
    vstd::utf8::encode_utf8_decode_utf8(text);
}

/// The native array of a run of values.
pub open spec fn array_of(items: Seq<XPCValue>) -> XPCValue {
    XPCValue::Array(items)
}

/// The ordered sequence that a native value yields: its items when it is an
/// array, `TypeError` when it is not.
pub open spec fn sequence_of(value: XPCValue) -> Result<Seq<XPCValue>, XPCError> {
    match value {
        XPCValue::Array(items) => Ok(items),
        _ => Err(XPCError::TypeError),
    }
}

/// An ordered sequence that is made into a native array and read back comes
/// out with the same values in the same order.
pub proof fn lemma_array_round_trip(items: Seq<XPCValue>)
    ensures
        sequence_of(array_of(items)) == Ok::<Seq<XPCValue>, XPCError>(items),
{
}

} // verus!
