use vstd::prelude::*;

use crate::error::SetupError;

verus! {

/// What a queue family reports about presenting to the target surface.
#[derive(Clone, Copy, Debug, PartialEq, Eq, Structural)]
pub enum PresentSupport {
    Supported,
    Unsupported,
    /// The per-family support query itself failed.
    QueryFailed,
}

/// The capabilities of one queue family; its id is its position in the device's list.
#[derive(Clone, Copy, Debug, PartialEq, Eq, Structural)]
pub struct QueueFamilyCaps {
    pub supports_graphics: bool,
    pub present: PresentSupport,
}

/// The families resolved for graphics submission and for presentation.
#[derive(Clone, Copy, Debug, PartialEq, Eq, Structural)]
pub struct QueueFamilyIndices {
    pub graphics_family_id: Option<u32>,
    pub presentation_family_id: Option<u32>,
}

impl QueueFamilyIndices {
    pub open spec fn complete(self) -> bool {
        self.graphics_family_id.is_some() && self.presentation_family_id.is_some()
    }

    pub fn new() -> (r: Self)
        ensures
            r.graphics_family_id.is_none(),
            r.presentation_family_id.is_none(),
    {
        QueueFamilyIndices { graphics_family_id: None, presentation_family_id: None }
    }

    pub fn is_complete(&self) -> (r: bool)
        ensures
            r == self.complete(),
    {
        self.graphics_family_id.is_some() && self.presentation_family_id.is_some()
    }
}

pub open spec fn graphics_at(fams: Seq<QueueFamilyCaps>, i: int) -> bool {
    0 <= i < fams.len() && fams[i].supports_graphics
}

pub open spec fn presents_at(fams: Seq<QueueFamilyCaps>, i: int) -> bool {
    0 <= i < fams.len() && fams[i].present == PresentSupport::Supported
}

/// Some family before position `j` supports graphics.
pub open spec fn graphics_before(fams: Seq<QueueFamilyCaps>, j: int) -> bool {
    exists|i: int| 0 <= i < j && #[trigger] graphics_at(fams, i)
}

/// Some family before position `j` supports presentation.
pub open spec fn present_before(fams: Seq<QueueFamilyCaps>, j: int) -> bool {
    exists|i: int| 0 <= i < j && #[trigger] presents_at(fams, i)
}

/// The scan reaches family `j`, and so asks it about presentation: both roles
/// are not yet filled by the families before it.
pub open spec fn probed(fams: Seq<QueueFamilyCaps>, j: int) -> bool {
    0 <= j < fams.len() && !(graphics_before(fams, j) && present_before(fams, j))
}

/// The scan asks family `j` about presentation and that query fails.
pub open spec fn query_fails_at(fams: Seq<QueueFamilyCaps>, j: int) -> bool {
    probed(fams, j) && fams[j].present == PresentSupport::QueryFailed
}

pub open spec fn resolution_fails(fams: Seq<QueueFamilyCaps>) -> bool {
    exists|j: int| #[trigger] query_fails_at(fams, j)
}

/// `id` is the first family that supports graphics, or `None` where none does.
pub open spec fn first_graphics(fams: Seq<QueueFamilyCaps>, id: Option<u32>) -> bool {
    match id {
        Some(g) => graphics_at(fams, g as int) && !graphics_before(fams, g as int),
        None => !graphics_before(fams, fams.len() as int),
    }
}

/// `id` is the first family that supports presentation, or `None` where none does.
pub open spec fn first_present(fams: Seq<QueueFamilyCaps>, id: Option<u32>) -> bool {
    match id {
        Some(p) => presents_at(fams, p as int) && !present_before(fams, p as int),
        None => !present_before(fams, fams.len() as int),
    }
}

/// What resolving the queue families of a device yields: an error where a
/// presentation query that the scan makes fails, else the first graphics
/// family and the first presenting family.
pub open spec fn resolves_to(
    fams: Seq<QueueFamilyCaps>,
    r: Result<QueueFamilyIndices, SetupError>,
) -> bool {
    match r {
        Ok(ix) => !resolution_fails(fams) && first_graphics(fams, ix.graphics_family_id)
            && first_present(fams, ix.presentation_family_id),
        Err(e) => resolution_fails(fams) && e == SetupError::UnsupportedSurface,
    }
}

/// Scans the families in order, taking the first that supports graphics and
/// the first that supports presentation, and stops once both are known.
pub fn find_queue_family_ids(families: &Vec<QueueFamilyCaps>) -> (r: Result<
    QueueFamilyIndices,
    SetupError,
>)
    requires
        families@.len() <= u32::MAX,
    ensures
        resolves_to(families@, r),
{
    let ghost fams = families@;
    let mut ids = QueueFamilyIndices::new();
    let mut i: usize = 0;
    while i < families.len()
        invariant
            fams == families@,
            i <= fams.len() <= u32::MAX,
            forall|j: int| 0 <= j < i ==> !#[trigger] query_fails_at(fams, j),
            match ids.graphics_family_id {
                Some(g) => g < i && first_graphics(fams, Some(g)),
                None => !graphics_before(fams, i as int),
            },
            match ids.presentation_family_id {
                Some(p) => p < i && first_present(fams, Some(p)),
                None => !present_before(fams, i as int),
            },
            !ids.complete(),
        decreases fams.len() - i,
    {
        let fam = families[i];
        assert(probed(fams, i as int));
        if fam.supports_graphics && ids.graphics_family_id.is_none() {
            ids.graphics_family_id = Some(i as u32);
        }
        match fam.present {
            PresentSupport::QueryFailed => {
                assert(query_fails_at(fams, i as int));
                return Err(SetupError::UnsupportedSurface);
            },
            PresentSupport::Supported => {
                if ids.presentation_family_id.is_none() {
                    ids.presentation_family_id = Some(i as u32);
                }
            },
            PresentSupport::Unsupported => {},
        }
        assert(ids.graphics_family_id.is_none() ==> !graphics_before(fams, i + 1)) by {
            if ids.graphics_family_id.is_none() {
                assert forall|k: int| 0 <= k < i + 1 implies !#[trigger] graphics_at(fams, k) by {
                    if k < i {
                        assert(!graphics_before(fams, i as int));
                    }
                }
            }
        }
        assert(ids.presentation_family_id.is_none() ==> !present_before(fams, i + 1)) by {
            if ids.presentation_family_id.is_none() {
                assert forall|k: int| 0 <= k < i + 1 implies !#[trigger] presents_at(fams, k) by {
                    if k < i {
                        assert(!present_before(fams, i as int));
                    }
                }
            }
        }
        if ids.is_complete() {
            let ghost g = ids.graphics_family_id.unwrap() as int;
            let ghost p = ids.presentation_family_id.unwrap() as int;
            assert forall|j: int| !#[trigger] query_fails_at(fams, j) by {
                if j > i {
                    assert(graphics_at(fams, g));
                    assert(presents_at(fams, p));
                }
            }
            return Ok(ids);
        }
        i += 1;
    }
    assert forall|j: int| !#[trigger] query_fails_at(fams, j) by {}
    Ok(ids)
}

/// Where the first family that supports either role supports both, both
/// roles resolve to that one family; where no family supports both, the
/// resolver never gives one family both roles.
pub proof fn lemma_shared_or_distinct(fams: Seq<QueueFamilyCaps>, ix: QueueFamilyIndices)
    requires
        resolves_to(fams, Ok(ix)),
        ix.complete(),
    ensures
        (exists|k: int|
            graphics_at(fams, k) && presents_at(fams, k) && !graphics_before(fams, k)
                && !present_before(fams, k)) ==> ix.graphics_family_id
            == ix.presentation_family_id,
        (forall|k: int| !(#[trigger] graphics_at(fams, k) && presents_at(fams, k)))
            ==> ix.graphics_family_id != ix.presentation_family_id,
{
    let g = ix.graphics_family_id.unwrap() as int;
    let p = ix.presentation_family_id.unwrap() as int;
    if exists|k: int|
        graphics_at(fams, k) && presents_at(fams, k) && !graphics_before(fams, k)
            && !present_before(fams, k) {
        let k = choose|k: int|
            graphics_at(fams, k) && presents_at(fams, k) && !graphics_before(fams, k)
                && !present_before(fams, k);
        if g < k {
            assert(graphics_before(fams, k));
        }
        if k < g {
            assert(graphics_before(fams, g));
        }
        if p < k {
            assert(present_before(fams, k));
        }
        if k < p {
            assert(present_before(fams, p));
        }
    }
    if forall|k: int| !(#[trigger] graphics_at(fams, k) && presents_at(fams, k)) {
        assert(!(graphics_at(fams, g) && presents_at(fams, g)));
    }
}

} // verus!
