use vstd::prelude::*;

verus! {

/// Identifies one pipeline: the namespace it was minted in and its sequence
/// number within that namespace.
#[derive(Clone, Copy, Debug, PartialEq, Eq, Structural)]
pub struct PipelineId {
    pub namespace_id: u32,
    pub index: u32,
}

#[derive(Clone, Copy, Debug, PartialEq, Eq, Structural)]
pub enum NamespaceError {
    /// `install` was called on a namespace that already holds an id.
    AlreadyInstalled,
    /// An id was asked for before any namespace was installed.
    NotInstalled,
    /// Every index of the namespace has been handed out.
    Exhausted,
}

/// The per-process allocator of pipeline identifiers.
///
/// It holds no namespace until `install`; afterwards every call of
/// `new_pipeline_id` hands out the next index, starting at 1.
pub struct PipelineNamespace {
    installed: Option<u32>,
    next_index: u32,
}

impl PipelineNamespace {
    pub closed spec fn installed_id(self) -> Option<u32> {
        self.installed
    }

    /// The index that the next identifier will carry.
    pub closed spec fn next(self) -> nat {
        self.next_index as nat
    }

    pub open spec fn wf(self) -> bool {
        self.next() >= 1
    }

    /// `id` has already been handed out by this allocator.
    pub open spec fn minted(self, id: PipelineId) -> bool {
        &&& self.installed_id() == Some(id.namespace_id)
        &&& 1 <= id.index < self.next()
    }

    /// One successful call of `new_pipeline_id`: from `pre` to `post`, returning `id`.
    pub open spec fn mint_step(pre: Self, post: Self, id: PipelineId) -> bool {
        &&& pre.installed_id() is Some
        &&& id == (PipelineId { namespace_id: pre.installed_id()->0, index: pre.next() as u32 })
        &&& post.installed_id() == pre.installed_id()
        &&& post.next() == pre.next() + 1
    }

    pub fn new() -> (r: Self)
        ensures
            r.wf(),
            r.installed_id() is None,
            r.next() == 1,
    {
        PipelineNamespace { installed: None, next_index: 1 }
    }

    pub fn is_installed(&self) -> (r: bool)
        ensures
            r == self.installed_id() is Some,
    {
        self.installed.is_some()
    }

    /// Installs `namespace_id`. A namespace is installed once: a second call
    /// leaves the allocator unchanged and fails.
    pub fn install(&mut self, namespace_id: u32) -> (r: Result<(), NamespaceError>)
        ensures
            old(self).installed_id() is Some ==> r == Err::<(), NamespaceError>(NamespaceError::AlreadyInstalled)
                && *final(self) == *old(self),
            old(self).installed_id() is None ==> r is Ok
                && final(self).installed_id() == Some(namespace_id)
                && final(self).next() == old(self).next(),
    {
        if self.installed.is_some() {
            Err(NamespaceError::AlreadyInstalled)
        } else {
            self.installed = Some(namespace_id);
            Ok(())
        }
    }

    /// Mints a fresh identifier in the installed namespace.
    pub fn new_pipeline_id(&mut self) -> (r: Result<PipelineId, NamespaceError>)
        requires
            old(self).wf(),
        ensures
            final(self).wf(),
            old(self).installed_id() is None ==> r == Err::<PipelineId, NamespaceError>(NamespaceError::NotInstalled)
                && *final(self) == *old(self),
            old(self).installed_id() is Some && old(self).next() == u32::MAX ==>
                r == Err::<PipelineId, NamespaceError>(NamespaceError::Exhausted) && *final(self) == *old(self),
            old(self).installed_id() is Some && old(self).next() < u32::MAX ==> r is Ok
                && Self::mint_step(*old(self), *final(self), r->Ok_0),
            r is Ok ==> !old(self).minted(r->Ok_0) && final(self).minted(r->Ok_0),
            forall|id: PipelineId| old(self).minted(id) ==> final(self).minted(id),
    {
        match self.installed {
            None => Err(NamespaceError::NotInstalled),
            Some(ns) => {
                if self.next_index == u32::MAX {
                    Err(NamespaceError::Exhausted)
                } else {
                    let id = PipelineId { namespace_id: ns, index: self.next_index };
                    self.next_index = self.next_index + 1;
                    Ok(id)
                }
            },
        }
    }
}

/// Identifiers minted one after another from an installed namespace are
/// pairwise distinct and all carry the installed namespace id, which no
/// minting step changes.
pub proof fn lemma_minted_ids_distinct(states: Seq<PipelineNamespace>, ids: Seq<PipelineId>)
    requires
        states.len() == ids.len() + 1,
        states[0].installed_id() is Some,
        forall|i: int| 0 <= i < ids.len() ==> PipelineNamespace::mint_step(states[i], states[i + 1], #[trigger] ids[i]),
    ensures
        forall|i: int| 0 <= i < ids.len() ==> (#[trigger] ids[i]).namespace_id == states[0].installed_id()->0,
        forall|i: int, j: int| 0 <= i < j < ids.len() ==> ids[i] != ids[j],
{
    assert forall|k: int| 0 <= k < states.len() implies
        (#[trigger] states[k]).installed_id() == states[0].installed_id()
        && states[k].next() == states[0].next() + k by {
        lemma_states_advance(states, ids, k);
    }
    assert forall|i: int| 0 <= i < ids.len() implies (#[trigger] ids[i]).index == states[0].next() + i by {
        assert(PipelineNamespace::mint_step(states[i], states[i + 1], ids[i]));
        assert(states[i].next() == states[0].next() + i);
    }
    assert forall|i: int| 0 <= i < ids.len() implies (#[trigger] ids[i]).namespace_id == states[0].installed_id()->0 by {
        assert(PipelineNamespace::mint_step(states[i], states[i + 1], ids[i]));
        assert(states[i].installed_id() == states[0].installed_id());
    }
    assert forall|i: int, j: int| 0 <= i < j < ids.len() implies ids[i] != ids[j] by {
        assert(ids[i].index == states[0].next() + i);
        assert(ids[j].index == states[0].next() + j);
    }
}

proof fn lemma_states_advance(states: Seq<PipelineNamespace>, ids: Seq<PipelineId>, k: int)
    requires
        states.len() == ids.len() + 1,
        0 <= k < states.len(),
        forall|i: int| 0 <= i < ids.len() ==> PipelineNamespace::mint_step(states[i], states[i + 1], #[trigger] ids[i]),
    ensures
        states[k].installed_id() == states[0].installed_id(),
        states[k].next() == states[0].next() + k,
    decreases k,
{
    if k > 0 {
        lemma_states_advance(states, ids, k - 1);
        assert(PipelineNamespace::mint_step(states[k - 1], states[k], ids[k - 1]));
    }
}

} // verus!
