//! Resolution of the gateway executable's path.
//!
//! Only the caller can test the disk, read the environment, or ask the
//! system search path, so it gathers one [`LocatorInput`] — every candidate
//! path together with whether it exists — and the library decides which
//! candidate wins.  The precedence is a contract: an explicit override
//! first, then the sidecar locations next to the host executable, then the
//! system search path, then the development build locations, each tier in
//! the order given.

use vstd::prelude::*;

use crate::supervisor::GatewayError;

verus! {

/// Model of a candidate path: its characters and whether it exists on
/// disk.
pub struct CandidateModel {
    /// The candidate path.
    pub path: Seq<char>,
    /// Whether the path existed when the caller looked.
    pub exists: bool,
}

/// A candidate path for the gateway executable, as the caller found it.
pub struct Candidate {
    /// The candidate path.
    pub path: String,
    /// Whether the path exists on disk.
    pub exists: bool,
}

impl View for Candidate {
    type V = CandidateModel;

    open spec fn view(&self) -> CandidateModel {
        CandidateModel { path: self.path@, exists: self.exists }
    }
}

/// Everything the locator's decision depends on, gathered by the caller.
pub struct LocatorInput {
    /// Explicit override from configuration, if one was given.
    pub override_candidate: Option<Candidate>,
    /// Candidate locations next to the host application's executable, in
    /// the order they are to be tried.
    pub sidecar_candidates: Vec<Candidate>,
    /// What the system's executable search mechanism answered for the
    /// well-known binary name, if it answered at all.
    pub path_lookup: Option<String>,
    /// Development build locations, in the order they are to be tried.
    pub dev_candidates: Vec<Candidate>,
}

/// The candidates as the model sees them.
pub open spec fn candidates_model(s: Seq<Candidate>) -> Seq<CandidateModel> {
    s.map_values(|c: Candidate| c@)
}

/// First existing candidate of a tier, in order.
pub open spec fn first_existing(s: Seq<CandidateModel>) -> Option<Seq<char>>
    decreases s.len(),
{
    if s.len() == 0 {
        None
    } else if s.first().exists {
        Some(s.first().path)
    } else {
        first_existing(s.drop_first())
    }
}

/// The override tier's choice: the override path, when one was given and
/// exists.
pub open spec fn override_choice(input: LocatorInput) -> Option<Seq<char>> {
    match input.override_candidate {
        Some(c) => if c@.exists {
            Some(c@.path)
        } else {
            None
        },
        None => None,
    }
}

/// The system search path tier's choice: its answer, when it gave a
/// non-empty one.
pub open spec fn path_lookup_choice(input: LocatorInput) -> Option<Seq<char>> {
    match input.path_lookup {
        Some(p) => if p@.len() > 0 {
            Some(p@)
        } else {
            None
        },
        None => None,
    }
}

/// The locator's decision: the first existing candidate, tiers in
/// precedence order, or nothing when no candidate exists.
pub open spec fn spec_locate(input: LocatorInput) -> Option<Seq<char>> {
    if override_choice(input) is Some {
        override_choice(input)
    } else if first_existing(candidates_model(input.sidecar_candidates@)) is Some {
        first_existing(candidates_model(input.sidecar_candidates@))
    } else if path_lookup_choice(input) is Some {
        path_lookup_choice(input)
    } else {
        first_existing(candidates_model(input.dev_candidates@))
    }
}

/// First existing candidate of one tier.
fn first_existing_path(cands: &Vec<Candidate>) -> (r: Option<&String>)
    ensures
        (match r {
            Some(p) => Some(p@),
            None => None::<Seq<char>>,
        }) == first_existing(candidates_model(cands@)),
{
    let ghost full = candidates_model(cands@);
    let mut i: usize = 0;
    proof {
        assert(full.skip(0) =~= full);
    }
    while i < cands.len()
        invariant
            i <= cands.len(),
            full == candidates_model(cands@),
            first_existing(full) == first_existing(full.skip(i as int)),
        decreases cands.len() - i,
    {
        proof {
            assert(full.skip(i as int).first() == cands@[i as int]@);
        }
        if cands[i].exists {
            return Some(&cands[i].path);
        }
        proof {
            assert(full.skip(i as int).drop_first() =~= full.skip(i as int + 1));
        }
        i += 1;
    }
    proof {
        assert(full.skip(i as int).len() == 0);
    }
    None
}

/// Resolve the gateway executable among the gathered candidates,
/// returning the first existing one in precedence order, or
/// `BinaryNotFound` when none exists.
pub fn locate(input: &LocatorInput) -> (r: Result<String, GatewayError>)
    ensures
        (r matches Ok(p)) == (spec_locate(*input) is Some),
        r matches Ok(p) ==> Some(p@) == spec_locate(*input),
        r matches Err(e) ==> e is BinaryNotFound && spec_locate(*input) is None,
{
    if let Some(c) = &input.override_candidate {
        if c.exists {
            return Ok(c.path.clone());
        }
    }
    if let Some(p) = first_existing_path(&input.sidecar_candidates) {
        return Ok(p.clone());
    }
    if let Some(p) = &input.path_lookup {
        if !p.as_str().is_empty() {
            return Ok(p.clone());
        }
    }
    if let Some(p) = first_existing_path(&input.dev_candidates) {
        return Ok(p.clone());
    }
    Err(GatewayError::BinaryNotFound)
}

/// Law: the explicit override wins — whenever it exists, the locator
/// returns it, whatever else exists beside it.
pub proof fn lemma_override_wins(input: LocatorInput)
    requires
        input.override_candidate matches Some(c) && c@.exists,
    ensures
        spec_locate(input) == Some(input.override_candidate->0@.path),
{
}

} // verus!
