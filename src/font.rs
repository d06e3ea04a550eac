use vstd::prelude::*;

verus! {

/// A key for a registered font: the compositor's namespace and a resource id.
#[derive(Clone, Copy, Debug, PartialEq, Eq, Structural)]
pub struct FontKey {
    pub namespace_id: u32,
    pub resource_id: u32,
}

/// A key for a font at one size.
#[derive(Clone, Copy, Debug, PartialEq, Eq, Structural)]
pub struct FontInstanceKey {
    pub namespace_id: u32,
    pub resource_id: u32,
}

/// What the font cache asks the compositor to register.
#[derive(Debug)]
pub enum FontRequest {
    /// Raw font bytes.
    AddFont(Vec<u8>),
    /// An instance of a registered font; the size is in app units (1/60 px).
    AddFontInstance(FontKey, i32),
}

/// The compositor's answer to one `FontRequest`.
#[derive(Clone, Copy, Debug, PartialEq, Eq, Structural)]
pub enum FontReply {
    Font(FontKey),
    Instance(FontInstanceKey),
}

#[derive(Clone, Copy, Debug, PartialEq, Eq, Structural)]
pub enum FontError {
    /// The compositor has handed out every resource id.
    Exhausted,
    /// The reply channel closed before an answer arrived.
    ChannelClosed,
    /// The answer is of another kind than the request.
    MismatchedReply,
}

/// `reply` is of the kind that `req` asks for.
pub open spec fn answers(req: FontRequest, reply: FontReply) -> bool {
    match req {
        FontRequest::AddFont(_) => reply is Font,
        FontRequest::AddFontInstance(_, _) => reply is Instance,
    }
}

/// The namespace and resource id that a reply carries.
pub open spec fn reply_key(reply: FontReply) -> (u32, u32) {
    match reply {
        FontReply::Font(k) => (k.namespace_id, k.resource_id),
        FontReply::Instance(k) => (k.namespace_id, k.resource_id),
    }
}

/// The compositor side of font registration: hands out keys from one
/// counter shared by fonts and font instances, so no two answers carry the
/// same resource id.
pub struct FontKeyAllocator {
    namespace_id: u32,
    next_id: u32,
}

impl FontKeyAllocator {
    pub closed spec fn namespace(self) -> u32 {
        self.namespace_id
    }

    pub closed spec fn next(self) -> nat {
        self.next_id as nat
    }

    /// One successful registration: from `pre` to `post`, answering `req` with `reply`.
    pub open spec fn register_step(pre: Self, post: Self, req: FontRequest, reply: FontReply) -> bool {
        &&& answers(req, reply)
        &&& reply_key(reply) == (pre.namespace(), pre.next() as u32)
        &&& post.namespace() == pre.namespace()
        &&& post.next() == pre.next() + 1
    }

    pub fn new(namespace_id: u32) -> (r: Self)
        ensures
            r.namespace() == namespace_id,
            r.next() == 1,
    {
        FontKeyAllocator { namespace_id, next_id: 1 }
    }

    /// Allocates the key that answers `req`.
    pub fn register(&mut self, req: &FontRequest) -> (r: Result<FontReply, FontError>)
        ensures
            old(self).next() == u32::MAX ==> r == Err::<FontReply, FontError>(FontError::Exhausted)
                && final(self).namespace() == old(self).namespace()
                && final(self).next() == old(self).next(),
            old(self).next() < u32::MAX ==> r is Ok
                && Self::register_step(*old(self), *final(self), *req, r->Ok_0),
    {
        if self.next_id == u32::MAX {
            return Err(FontError::Exhausted);
        }
        let id = self.next_id;
        self.next_id = self.next_id + 1;
        match req {
            FontRequest::AddFont(_) => Ok(FontReply::Font(FontKey { namespace_id: self.namespace_id, resource_id: id })),
            FontRequest::AddFontInstance(_, _) => Ok(
                FontReply::Instance(FontInstanceKey { namespace_id: self.namespace_id, resource_id: id }),
            ),
        }
    }
}

/// What the font cache makes of the answer to an `AddFont` request: the key,
/// or an error when the channel closed or the answer is of the other kind.
pub fn font_key_from_reply(reply: Option<FontReply>) -> (r: Result<FontKey, FontError>)
    ensures
        reply is None ==> r == Err::<FontKey, FontError>(FontError::ChannelClosed),
        reply matches Some(FontReply::Font(k)) ==> r == Ok::<FontKey, FontError>(k),
        reply matches Some(FontReply::Instance(_)) ==> r == Err::<FontKey, FontError>(FontError::MismatchedReply),
{
    match reply {
        None => Err(FontError::ChannelClosed),
        Some(FontReply::Font(k)) => Ok(k),
        Some(FontReply::Instance(_)) => Err(FontError::MismatchedReply),
    }
}

/// What the font cache makes of the answer to an `AddFontInstance` request.
pub fn font_instance_key_from_reply(reply: Option<FontReply>) -> (r: Result<FontInstanceKey, FontError>)
    ensures
        reply is None ==> r == Err::<FontInstanceKey, FontError>(FontError::ChannelClosed),
        reply matches Some(FontReply::Instance(k)) ==> r == Ok::<FontInstanceKey, FontError>(k),
        reply matches Some(FontReply::Font(_)) ==> r == Err::<FontInstanceKey, FontError>(FontError::MismatchedReply),
{
    match reply {
        None => Err(FontError::ChannelClosed),
        Some(FontReply::Instance(k)) => Ok(k),
        Some(FontReply::Font(_)) => Err(FontError::MismatchedReply),
    }
}

/// The font cache's record of the instance keys the compositor has
/// acknowledged, by font and size. A key is only ever entered from a reply,
/// so a lookup never returns a key that was not asked for and answered.
pub struct FontInstanceCache {
    entries: Vec<(FontKey, i32, FontInstanceKey)>,
    acknowledged: Ghost<Map<(FontKey, i32), FontInstanceKey>>,
}

impl FontInstanceCache {
    pub closed spec fn view(&self) -> Map<(FontKey, i32), FontInstanceKey> {
        self.acknowledged@
    }

    pub closed spec fn wf(&self) -> bool {
        &&& forall|i: int| 0 <= i < self.entries@.len() ==>
            #[trigger] self.acknowledged@.contains_key((self.entries@[i].0, self.entries@[i].1))
                && self.acknowledged@[(self.entries@[i].0, self.entries@[i].1)] == self.entries@[i].2
        &&& forall|k: (FontKey, i32)| #[trigger] self.acknowledged@.contains_key(k) ==>
            exists|i: int| 0 <= i < self.entries@.len() && self.entries@[i].0 == k.0 && self.entries@[i].1 == k.1
        &&& forall|i: int, j: int| 0 <= i < j < self.entries@.len() ==>
            !(#[trigger] self.entries@[i].0 == #[trigger] self.entries@[j].0 && self.entries@[i].1 == self.entries@[j].1)
    }

    pub fn new() -> (r: Self)
        ensures
            r.wf(),
            r.view() == Map::<(FontKey, i32), FontInstanceKey>::empty(),
    {
        FontInstanceCache { entries: Vec::new(), acknowledged: Ghost(Map::empty()) }
    }

    fn position(&self, font: FontKey, size: i32) -> (r: Option<usize>)
        requires
            self.wf(),
        ensures
            r is None <==> !self.view().contains_key((font, size)),
            r matches Some(i) ==> i < self.entries@.len() && self.entries@[i as int].0 == font
                && self.entries@[i as int].1 == size,
    {
        let mut i: usize = 0;
        while i < self.entries.len()
            invariant
                self.wf(),
                i <= self.entries@.len(),
                forall|j: int| 0 <= j < i ==> !(self.entries@[j].0 == font && self.entries@[j].1 == size),
            decreases self.entries@.len() - i,
        {
            if self.entries[i].0 == font && self.entries[i].1 == size {
                proof {
                    assert(self.acknowledged@.contains_key((self.entries@[i as int].0, self.entries@[i as int].1)));
                }
                return Some(i);
            }
            i = i + 1;
        }
        proof {
            if self.view().contains_key((font, size)) {
                let j = choose|j: int| 0 <= j < self.entries@.len() && self.entries@[j].0 == font
                    && self.entries@[j].1 == size;
                assert(!(self.entries@[j].0 == font && self.entries@[j].1 == size));
            }
        }
        None
    }

    /// The acknowledged key for `font` at `size`, if there is one.
    pub fn lookup(&self, font: FontKey, size: i32) -> (r: Option<FontInstanceKey>)
        requires
            self.wf(),
        ensures
            r == (if self.view().contains_key((font, size)) {
                Some(self.view()[(font, size)])
            } else {
                None::<FontInstanceKey>
            }),
    {
        match self.position(font, size) {
            None => None,
            Some(i) => {
                proof {
                    assert(self.view().contains_key((self.entries@[i as int].0, self.entries@[i as int].1)));
                }
                Some(self.entries[i].2)
            },
        }
    }

    /// Records the compositor's answer to a request for `font` at `size`.
    /// An answer of the wrong kind, or none at all, leaves the cache as it was.
    pub fn record_reply(&mut self, font: FontKey, size: i32, reply: Option<FontReply>) -> (r: Result<
        FontInstanceKey,
        FontError,
    >)
        requires
            old(self).wf(),
        ensures
            final(self).wf(),
            reply is None ==> r == Err::<FontInstanceKey, FontError>(FontError::ChannelClosed),
            reply matches Some(FontReply::Instance(k)) ==> r == Ok::<FontInstanceKey, FontError>(k),
            reply matches Some(FontReply::Font(_)) ==> r == Err::<FontInstanceKey, FontError>(FontError::MismatchedReply),
            r matches Ok(k) ==> final(self).view() == old(self).view().insert((font, size), k),
            r is Err ==> final(self).view() == old(self).view(),
    {
        let r = font_instance_key_from_reply(reply);
        if let Ok(k) = r {
            let ghost pre = self.entries@;
            let ghost old_m = self.acknowledged@;
            let pos = self.position(font, size);
            match pos {
                Some(i) => {
                    self.entries.set(i, (font, size, k));
                },
                None => {
                    self.entries.push((font, size, k));
                },
            }
            self.acknowledged = Ghost(old_m.insert((font, size), k));
            proof {
                let m = self.acknowledged@;
                let e = self.entries@;
                let idx: int = match pos {
                    Some(i) => i as int,
                    None => pre.len() as int,
                };
                assert(0 <= idx < e.len() && e[idx] == (font, size, k));
                assert forall|i: int| 0 <= i < e.len() && i != idx implies #[trigger] e[i] == pre[i]
                    && !(pre[i].0 == font && pre[i].1 == size) by {
                    if pre[i].0 == font && pre[i].1 == size {
                        assert(old_m.contains_key((pre[i].0, pre[i].1)));
                    }
                }
                assert forall|i: int| 0 <= i < e.len() implies
                    #[trigger] m.contains_key((e[i].0, e[i].1)) && m[(e[i].0, e[i].1)] == e[i].2 by {
                    if i != idx {
                        assert(e[i] == pre[i]);
                        assert(old_m.contains_key((pre[i].0, pre[i].1)));
                    }
                }
                assert forall|key: (FontKey, i32)| #[trigger] m.contains_key(key) implies
                    exists|i: int| 0 <= i < e.len() && e[i].0 == key.0 && e[i].1 == key.1 by {
                    if key == (font, size) {
                        assert(e[idx].0 == key.0 && e[idx].1 == key.1);
                    } else {
                        assert(old_m.contains_key(key));
                        let i = choose|i: int| 0 <= i < pre.len() && pre[i].0 == key.0 && pre[i].1 == key.1;
                        assert(i != idx);
                        assert(e[i] == pre[i]);
                        assert(e[i].0 == key.0 && e[i].1 == key.1);
                    }
                }
                assert forall|i: int, j: int| 0 <= i < j < e.len() implies
                    !(#[trigger] e[i].0 == #[trigger] e[j].0 && e[i].1 == e[j].1) by {
                    if i != idx && j != idx {
                        assert(e[i] == pre[i] && e[j] == pre[j]);
                    } else if i == idx {
                        assert(e[j] == pre[j]);
                    } else {
                        assert(e[i] == pre[i]);
                    }
                }
            }
        }
        r
    }
}

/// Requests answered one after another by a single compositor get pairwise
/// distinct keys, and the i-th answer is of the kind the i-th request asked
/// for.
pub proof fn lemma_registered_keys_distinct(
    states: Seq<FontKeyAllocator>,
    reqs: Seq<FontRequest>,
    replies: Seq<FontReply>,
)
    requires
        states.len() == reqs.len() + 1,
        replies.len() == reqs.len(),
        forall|i: int| 0 <= i < reqs.len() ==> FontKeyAllocator::register_step(states[i], states[i + 1], reqs[i], #[trigger] replies[i]),
    ensures
        forall|i: int| 0 <= i < reqs.len() ==> answers(reqs[i], #[trigger] replies[i]),
        forall|i: int, j: int| 0 <= i < j < reqs.len() ==> reply_key(replies[i]) != reply_key(replies[j]),
{
    assert forall|i: int| 0 <= i < reqs.len() implies reply_key(#[trigger] replies[i]).1 == states[0].next() + i by {
        lemma_allocator_advances(states, reqs, replies, i);
        assert(FontKeyAllocator::register_step(states[i], states[i + 1], reqs[i], replies[i]));
    }
    assert forall|i: int| 0 <= i < reqs.len() implies answers(reqs[i], #[trigger] replies[i]) by {
        assert(FontKeyAllocator::register_step(states[i], states[i + 1], reqs[i], replies[i]));
    }
    assert forall|i: int, j: int| 0 <= i < j < reqs.len() implies reply_key(replies[i]) != reply_key(replies[j]) by {
        assert(reply_key(replies[i]).1 == states[0].next() + i);
        assert(reply_key(replies[j]).1 == states[0].next() + j);
    }
}

proof fn lemma_allocator_advances(
    states: Seq<FontKeyAllocator>,
    reqs: Seq<FontRequest>,
    replies: Seq<FontReply>,
    k: int,
)
    requires
        states.len() == reqs.len() + 1,
        replies.len() == reqs.len(),
        0 <= k < states.len(),
        forall|i: int| 0 <= i < reqs.len() ==> FontKeyAllocator::register_step(states[i], states[i + 1], reqs[i], #[trigger] replies[i]),
    ensures
        states[k].next() == states[0].next() + k,
    decreases k,
{
    if k > 0 {
        lemma_allocator_advances(states, reqs, replies, k - 1);
        assert(FontKeyAllocator::register_step(states[k - 1], states[k], reqs[k - 1], replies[k - 1]));
    }
}

} // verus!
