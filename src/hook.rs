//! The table of installed redirects ("hooks").
//!
//! A redirect sends every call through a target entry point to a replacement,
//! while a trampoline keeps the original behaviour callable. The table allows
//! at most one redirect per target.
use std::collections::HashMap;
use vstd::prelude::*;

verus! {

broadcast use vstd::std_specs::hash::group_hash_axioms;

/// One installed redirect.
#[derive(Clone, Copy, Debug, PartialEq, Eq, Structural)]
pub struct HookBinding {
    /// The entry point whose calls are redirected.
    pub target: usize,
    /// Where the calls go while the redirect is installed.
    pub replacement: usize,
    /// A callable copy of the original behaviour of `target`.
    pub trampoline: usize,
}

/// Why installing or removing a redirect did not happen.
#[derive(Clone, Copy, Debug, PartialEq, Eq, Structural)]
pub enum HookError {
    /// The target could not be resolved (its module or interface is not loaded yet).
    ResolutionFailed,
    /// The target already carries a redirect.
    AlreadyBound,
    /// Rewriting the target's entry failed.
    PatchFailed,
    /// The binding to remove is not installed.
    NotBound,
}

/// The redirects in place, keyed by target.
pub struct HookTable {
    bindings: HashMap<usize, HookBinding>,
}

/// Every binding is stored under its own target.
pub open spec fn table_wf(m: Map<usize, HookBinding>) -> bool {
    forall|t: usize| #[trigger] m.contains_key(t) ==> m[t].target == t
}

/// The first half of an install: a target that resolved and is free.
pub open spec fn install_admits(m: Map<usize, HookBinding>, resolved: Option<usize>) -> Result<
    usize,
    HookError,
> {
    match resolved {
        None => Err(HookError::ResolutionFailed),
        Some(t) => if m.contains_key(t) {
            Err(HookError::AlreadyBound)
        } else {
            Ok(t)
        },
    }
}

/// The second half of an install: record the redirect once the patch is done.
pub open spec fn install_committed(
    m: Map<usize, HookBinding>,
    target: usize,
    replacement: usize,
    patched: Option<usize>,
) -> (Map<usize, HookBinding>, Result<HookBinding, HookError>) {
    if m.contains_key(target) {
        (m, Err(HookError::AlreadyBound))
    } else {
        match patched {
            None => (m, Err(HookError::PatchFailed)),
            Some(tr) => {
                let b = HookBinding { target, replacement, trampoline: tr };
                (m.insert(target, b), Ok(b))
            },
        }
    }
}

/// A whole install: resolve, check that the target is free, patch, record.
/// `patched` is the trampoline that the patch produced, or `None` when it failed.
pub open spec fn installed(
    m: Map<usize, HookBinding>,
    resolved: Option<usize>,
    replacement: usize,
    patched: Option<usize>,
) -> (Map<usize, HookBinding>, Result<HookBinding, HookError>) {
    match install_admits(m, resolved) {
        Err(e) => (m, Err(e)),
        Ok(t) => install_committed(m, t, replacement, patched),
    }
}

/// Removing a binding: only the binding that is installed for its target.
pub open spec fn uninstalled(m: Map<usize, HookBinding>, b: HookBinding) -> (
    Map<usize, HookBinding>,
    Result<(), HookError>,
) {
    if m.contains_key(b.target) && m[b.target] == b {
        (m.remove(b.target), Ok(()))
    } else {
        (m, Err(HookError::NotBound))
    }
}

/// Where a call through `addr` lands: the replacement of its redirect, or
/// `addr` itself when none is installed.
pub open spec fn routed(m: Map<usize, HookBinding>, addr: usize) -> usize {
    if m.contains_key(addr) {
        m[addr].replacement
    } else {
        addr
    }
}

impl View for HookTable {
    type V = Map<usize, HookBinding>;

    closed spec fn view(&self) -> Map<usize, HookBinding> {
        self.bindings@
    }
}

impl HookTable {
    pub open spec fn wf(&self) -> bool {
        table_wf(self@)
    }

    /// A table with no redirect.
    pub fn new() -> (r: HookTable)
        ensures
            r.wf(),
            r@ == Map::<usize, HookBinding>::empty(),
    {
        HookTable { bindings: HashMap::new() }
    }

    /// The binding installed for `target`, if any.
    pub fn binding_for(&self, target: usize) -> (r: Option<HookBinding>)
        ensures
            r == (if self@.contains_key(target) {
                Some(self@[target])
            } else {
                None::<HookBinding>
            }),
    {
        match self.bindings.get(&target) {
            Some(b) => Some(*b),
            None => None,
        }
    }

    /// Where a call through `addr` lands now.
    pub fn route(&self, addr: usize) -> (r: usize)
        ensures
            r == routed(self@, addr),
    {
        match self.bindings.get(&addr) {
            Some(b) => b.replacement,
            None => addr,
        }
    }

    /// Decides whether a patch may be attempted: `resolved` is what the
    /// resolver gave for the method (`None` when it is not loaded yet). On
    /// `Ok(t)` the caller patches `t` and reports with [`Self::commit_install`].
    pub fn check_install(&self, resolved: Option<usize>) -> (r: Result<usize, HookError>)
        ensures
            r == install_admits(self@, resolved),
    {
        match resolved {
            None => Err(HookError::ResolutionFailed),
            Some(t) => if self.bindings.contains_key(&t) {
                Err(HookError::AlreadyBound)
            } else {
                Ok(t)
            },
        }
    }

    /// Records the outcome of patching `target` to jump to `replacement`:
    /// `patched` is the trampoline, or `None` when the patch failed. A target
    /// that is already bound keeps its binding.
    pub fn commit_install(&mut self, target: usize, replacement: usize, patched: Option<usize>) -> (r:
        Result<HookBinding, HookError>)
        requires
            old(self).wf(),
        ensures
            final(self).wf(),
            (final(self)@, r) == install_committed(old(self)@, target, replacement, patched),
    {
        if self.bindings.contains_key(&target) {
            return Err(HookError::AlreadyBound);
        }
        match patched {
            None => Err(HookError::PatchFailed),
            Some(tr) => {
                let b = HookBinding { target, replacement, trampoline: tr };
                self.bindings.insert(target, b);
                Ok(b)
            },
        }
    }

    /// Removes `b` when it is the binding installed for its target. On `Ok`
    /// the caller restores the target's original entry.
    pub fn uninstall(&mut self, b: &HookBinding) -> (r: Result<(), HookError>)
        requires
            old(self).wf(),
        ensures
            final(self).wf(),
            (final(self)@, r) == uninstalled(old(self)@, *b),
    {
        let found = match self.bindings.get(&b.target) {
            Some(cur) => *cur == *b,
            None => false,
        };
        if found {
            self.bindings.remove(&b.target);
            Ok(())
        } else {
            Err(HookError::NotBound)
        }
    }
}

/// Installing twice on the same free target gives one binding and one
/// `AlreadyBound`: the second attempt changes nothing, so the target never
/// carries two redirects and the first binding keeps working.
pub proof fn lemma_install_twice(
    m: Map<usize, HookBinding>,
    target: usize,
    first: usize,
    first_patch: Option<usize>,
    second: usize,
    second_patch: Option<usize>,
)
    requires
        table_wf(m),
        !m.contains_key(target),
        first_patch is Some,
    ensures
        ({
            let (m1, r1) = installed(m, Some(target), first, first_patch);
            let (m2, r2) = installed(m1, Some(target), second, second_patch);
            &&& table_wf(m1)
            &&& r1 == Ok::<HookBinding, HookError>(
                HookBinding { target, replacement: first, trampoline: first_patch->0 },
            )
            &&& r2 == Err::<HookBinding, HookError>(HookError::AlreadyBound)
            &&& m2 == m1
            &&& m2[target] == r1->Ok_0
            &&& routed(m2, target) == first
        }),
{
}

/// Installing on a free target and then removing that binding leaves the
/// table as it was: a call through the target lands on the target itself.
pub proof fn lemma_uninstall_restores(
    m: Map<usize, HookBinding>,
    target: usize,
    replacement: usize,
    patched: Option<usize>,
)
    requires
        table_wf(m),
        !m.contains_key(target),
        patched is Some,
    ensures
        ({
            let (m1, r1) = installed(m, Some(target), replacement, patched);
            let (m2, r2) = uninstalled(m1, r1->Ok_0);
            &&& routed(m1, target) == replacement
            &&& r2 == Ok::<(), HookError>(())
            &&& m2 == m
            &&& routed(m2, target) == target
        }),
{
    let (m1, r1) = installed(m, Some(target), replacement, patched);
    assert(m1.remove(target) =~= m);
}

} // verus!
