use crate::xpc_error::XPCError;
use crate::xpc_object::XPCObject;
use crate::xpc_object::XPCValue;
use vstd::prelude::*;

verus! {

/// A region of virtual memory together with the native object that shows it to
/// the peer. The two name the same bytes.
#[derive(Debug)]
pub struct XPCShmem {
    /// The task that the memory was asked of.
    pub task: u32,
    /// The length of the region, in bytes.
    pub size: u64,
    /// The address of the region; 0 when there is none.
    pub region: u64,
    /// The native object over the region.
    pub xpc_object: XPCObject,
}

/// What is to be done with the memory of a segment that goes out of scope.
#[derive(Clone, Copy, Debug, PartialEq, Eq, Structural)]
pub enum ShmemRelease {
    /// There is no region: nothing to do.
    Nothing,
    /// The native object is still held elsewhere: the region is left in place,
    /// and a warning is due.
    Skipped,
    /// The region is to be given back to the task.
    Deallocate { task: u32, region: u64, size: u64 },
}

/// What is to be done with a region when its native object has `references`
/// holders: it is given back when there is a region and the segment is the only
/// holder, and left alone when anybody else holds the object.
pub open spec fn release_of(task: u32, region: u64, size: u64, references: u64) -> ShmemRelease {
    if region == 0 {
        ShmemRelease::Nothing
    } else if references == 1 {
        ShmemRelease::Deallocate { task, region, size }
    } else {
        ShmemRelease::Skipped
    }
}

/// The address that a segment holds after a release: none once the region was
/// given back, the same as before otherwise.
pub open spec fn region_after(region: u64, references: u64) -> u64 {
    if region != 0 && references == 1 {
        0
    } else {
        region
    }
}

impl XPCShmem {
    /// The segment for a region that the task was asked for.
    ///
    /// `kern_return` is what the allocation returned and `region` the address
    /// it wrote; `description` is the platform's text for `kern_return`. Any
    /// `kern_return` but 0 is a failure and gives `IOError` with that text, and
    /// no segment. On 0 the segment holds the region and a native object over
    /// the same bytes.
    pub fn new(task: u32, size: u64, kern_return: i32, region: u64, description: String) -> (r:
        Result<XPCShmem, XPCError>)
        ensures
            kern_return != 0 ==> (r matches Err(e) && e == XPCError::IOError(description)),
            kern_return == 0 ==> (r matches Ok(shmem) && shmem.task == task && shmem.size == size
                && shmem.region == region && shmem.xpc_object@ == (XPCValue::Shmem {
                region,
                size,
            })),
    {
        if kern_return != 0 {
            Err(XPCError::IOError(description))
        } else {
            Ok(XPCShmem { task, size, region, xpc_object: XPCObject::Shmem { region, size } })
        }
    }

    /// Decides what becomes of the region when the segment goes out of scope.
    ///
    /// `references` is the number of holders of the native object, the segment
    /// among them. The region is given back only when the segment is the only
    /// holder; the segment then forgets the address, so that no second release
    /// gives it back again.
    pub fn release(&mut self, references: u64) -> (r: ShmemRelease)
        ensures
            r == release_of(old(self).task, old(self).region, old(self).size, references),
            final(self).region == region_after(old(self).region, references),
            final(self).task == old(self).task,
            final(self).size == old(self).size,
            final(self).xpc_object == old(self).xpc_object,
    {
        if self.region == 0 {
            ShmemRelease::Nothing
        } else if references == 1 {
            let region = self.region;
            self.region = 0;
            ShmemRelease::Deallocate { task: self.task, region, size: self.size }
        } else {
            ShmemRelease::Skipped
        }
    }
}

/// While anybody else holds the native object, a release leaves the region in
/// place.
pub proof fn lemma_held_region_stays(task: u32, region: u64, size: u64, references: u64)
    requires
        references > 1,
    ensures
        !(release_of(task, region, size, references) is Deallocate),
        region_after(region, references) == region,
{
}

/// Once the segment is the only holder, a release gives the region back, and no
/// later release gives it back again.
pub proof fn lemma_region_freed_once(task: u32, region: u64, size: u64, later: u64)
    requires
        region != 0,
    ensures
        release_of(task, region, size, 1) == (ShmemRelease::Deallocate { task, region, size }),
        release_of(task, region_after(region, 1), size, later) == ShmemRelease::Nothing,
{
}

} // verus!
