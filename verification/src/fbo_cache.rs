//! The framebuffer objects that have been built, kept so that the same attachments reuse the
//! same object.
//!
//! Each cached object is found again by its attachments. When a texture or a render buffer is
//! destroyed, the objects that contain it must be purged; the purge returns the names of the
//! objects to delete.

use vstd::prelude::*;

use crate::fbo::{RawAttachment, RawAttachments, ValidatedAttachments};

verus! {

/// The attachments of a framebuffer object as a value: two framebuffer objects with the same
/// key are interchangeable.
pub struct AttachmentsKey {
    pub color: Seq<(u32, RawAttachment)>,
    pub depth: Option<RawAttachment>,
    pub stencil: Option<RawAttachment>,
    pub depth_stencil: Option<RawAttachment>,
    pub default_width: Option<u32>,
    pub default_height: Option<u32>,
    pub default_layers: Option<u32>,
    pub default_samples: Option<u32>,
    pub default_samples_fixed: Option<bool>,
}

/// The key of attachments.
pub open spec fn attachments_key(r: RawAttachments) -> AttachmentsKey {
    AttachmentsKey {
        color: r.color@,
        depth: r.depth,
        stencil: r.stencil,
        depth_stencil: r.depth_stencil,
        default_width: r.default_width,
        default_height: r.default_height,
        default_layers: r.default_layers,
        default_samples: r.default_samples,
        default_samples_fixed: r.default_samples_fixed,
    }
}

/// What an attachment is matched against when purging.
#[derive(Debug, Clone, Copy, PartialEq, Eq, Structural)]
pub enum PurgedImage {
    /// Any image of the texture with this name.
    Texture(u32),
    /// The render buffer with this name.
    RenderBuffer(u32),
}

/// Whether attachment `a` is an image of `image`.
pub open spec fn attachment_matches(a: RawAttachment, image: PurgedImage) -> bool {
    match image {
        PurgedImage::Texture(t) => a matches RawAttachment::Texture { texture, .. } && texture == t,
        PurgedImage::RenderBuffer(rb) => a == RawAttachment::RenderBuffer(rb),
    }
}

/// Whether attachments with key `k` contain an image of `image`.
pub open spec fn key_contains(k: AttachmentsKey, image: PurgedImage) -> bool {
    ||| exists|i: int| 0 <= i < k.color.len() && attachment_matches(#[trigger] k.color[i].1, image)
    ||| k.depth matches Some(a) && attachment_matches(a, image)
    ||| k.stencil matches Some(a) && attachment_matches(a, image)
    ||| k.depth_stencil matches Some(a) && attachment_matches(a, image)
}

/// Whether no two entries of `entries` have the same key.
pub open spec fn keys_distinct(entries: Seq<(AttachmentsKey, u32)>) -> bool {
    forall|i: int, j: int|
        0 <= i < entries.len() && 0 <= j < entries.len() && i != j ==> #[trigger] entries[i].0
            != #[trigger] entries[j].0
}

/// The name of the framebuffer object cached for key `k`, if there is one.
pub open spec fn cached_id(entries: Seq<(AttachmentsKey, u32)>, k: AttachmentsKey) -> Option<u32> {
    if exists|i: int| 0 <= i < entries.len() && (#[trigger] entries[i]).0 == k {
        let i = choose|i: int| 0 <= i < entries.len() && (#[trigger] entries[i]).0 == k;
        Some(entries[i].1)
    } else {
        None
    }
}

/// The entries that remain after purging the objects that contain `image`, in order.
pub open spec fn kept_entries(entries: Seq<(AttachmentsKey, u32)>, image: PurgedImage) -> Seq<
    (AttachmentsKey, u32),
>
    decreases entries.len(),
{
    if entries.len() == 0 {
        entries
    } else {
        let rest = kept_entries(entries.drop_last(), image);
        if key_contains(entries.last().0, image) {
            rest
        } else {
            rest.push(entries.last())
        }
    }
}

/// The names of the objects that purging `image` deletes, in the order of the entries.
pub open spec fn purged_ids(entries: Seq<(AttachmentsKey, u32)>, image: PurgedImage) -> Seq<u32>
    decreases entries.len(),
{
    if entries.len() == 0 {
        Seq::empty()
    } else {
        let rest = purged_ids(entries.drop_last(), image);
        if key_contains(entries.last().0, image) {
            rest.push(entries.last().1)
        } else {
            rest
        }
    }
}

/// Every entry that a purge keeps was an entry before, and it does not contain the purged
/// image.
proof fn lemma_kept_entries_from(entries: Seq<(AttachmentsKey, u32)>, image: PurgedImage)
    ensures
        forall|i: int|
            #![trigger kept_entries(entries, image)[i]]
            0 <= i < kept_entries(entries, image).len() ==> !key_contains(
                kept_entries(entries, image)[i].0,
                image,
            ) && exists|j: int|
                0 <= j < entries.len() && entries[j] == kept_entries(entries, image)[i],
    decreases entries.len(),
{
    if entries.len() > 0 {
        let p = entries.drop_last();
        lemma_kept_entries_from(p, image);
        let k = kept_entries(entries, image);
        let kp = kept_entries(p, image);
        assert forall|i: int| 0 <= i < k.len() implies !key_contains(#[trigger] k[i].0, image)
            && exists|j: int| 0 <= j < entries.len() && entries[j] == k[i] by {
            if i < kp.len() {
                assert(k[i] == kp[i]);
            }
            if i < kp.len() {
                assert(k[i] == kp[i]);
                let j = choose|j: int| 0 <= j < p.len() && p[j] == kp[i];
                assert(entries[j] == p[j]);
            } else {
                assert(k[i] == entries.last());
                assert(entries[entries.len() - 1] == entries.last());
            }
        }
    }
}

/// A purge keeps the keys distinct.
proof fn lemma_kept_entries_distinct(entries: Seq<(AttachmentsKey, u32)>, image: PurgedImage)
    requires
        keys_distinct(entries),
    ensures
        keys_distinct(kept_entries(entries, image)),
    decreases entries.len(),
{
    if entries.len() > 0 {
        let p = entries.drop_last();
        assert(keys_distinct(p)) by {
            assert forall|i: int, j: int|
                0 <= i < p.len() && 0 <= j < p.len() && i != j implies #[trigger] p[i].0
                != #[trigger] p[j].0 by {
                assert(p[i] == entries[i] && p[j] == entries[j]);
            }
        }
        lemma_kept_entries_distinct(p, image);
        lemma_kept_entries_from(p, image);
        let k = kept_entries(entries, image);
        let kp = kept_entries(p, image);
        let last = entries.last();
        if !key_contains(last.0, image) {
            assert forall|i: int, j: int|
                0 <= i < k.len() && 0 <= j < k.len() && i != j implies #[trigger] k[i].0
                != #[trigger] k[j].0 by {
                if i < kp.len() && j < kp.len() {
                    assert(k[i] == kp[i] && k[j] == kp[j]);
                } else if i < kp.len() {
                    assert(k[i] == kp[i]);
                    let a = choose|a: int| 0 <= a < p.len() && p[a] == kp[i];
                    assert(entries[a] == p[a]);
                    assert(k[j] == entries[entries.len() - 1]);
                } else {
                    assert(k[j] == kp[j]);
                    let a = choose|a: int| 0 <= a < p.len() && p[a] == kp[j];
                    assert(entries[a] == p[a]);
                    assert(k[i] == entries[entries.len() - 1]);
                }
            }
        }
    }
}

/// The framebuffer object to draw on.
#[derive(Debug, Clone, Copy, PartialEq, Eq, Structural)]
pub enum FramebufferLookup {
    /// The default framebuffer (name 0).
    Default,
    /// The cached framebuffer object with this name.
    Cached(u32),
    /// None is cached for these attachments: one must be built, then recorded with
    /// `insert`.
    Build,
}

/// The framebuffer objects that have been built, each with its attachments.
#[derive(Debug)]
pub struct FramebuffersContainer {
    framebuffers: Vec<(RawAttachments, u32)>,
}

/// Whether the two lists of color attachments are equal.
fn colors_equal(a: &Vec<(u32, RawAttachment)>, b: &Vec<(u32, RawAttachment)>) -> (r: bool)
    ensures
        r == (a@ == b@),
{
    if a.len() != b.len() {
        return false;
    }
    let mut i: usize = 0;
    while i < a.len()
        invariant
            a@.len() == b@.len(),
            i <= a@.len(),
            forall|j: int| 0 <= j < i ==> a@[j] == b@[j],
        decreases a@.len() - i,
    {
        if a[i].0 != b[i].0 || a[i].1 != b[i].1 {
            return false;
        }
        i = i + 1;
    }
    assert(a@ =~= b@);
    true
}

/// Whether two sets of attachments have the same key.
fn same_attachments(a: &RawAttachments, b: &RawAttachments) -> (r: bool)
    ensures
        r == (attachments_key(*a) == attachments_key(*b)),
{
    colors_equal(&a.color, &b.color) && a.depth == b.depth && a.stencil == b.stencil
        && a.depth_stencil == b.depth_stencil && a.default_width == b.default_width
        && a.default_height == b.default_height && a.default_layers == b.default_layers
        && a.default_samples == b.default_samples && a.default_samples_fixed
        == b.default_samples_fixed
}

/// A copy of attachments, with the same key.
fn copy_attachments(a: &RawAttachments) -> (r: RawAttachments)
    ensures
        attachments_key(r) == attachments_key(*a),
{
    let mut color: Vec<(u32, RawAttachment)> = Vec::new();
    let mut i: usize = 0;
    while i < a.color.len()
        invariant
            i <= a.color@.len(),
            color@ == a.color@.take(i as int),
        decreases a.color@.len() - i,
    {
        color.push(a.color[i]);
        i = i + 1;
        assert(color@ =~= a.color@.take(i as int));
    }
    assert(color@ =~= a.color@);
    RawAttachments {
        color,
        depth: a.depth,
        stencil: a.stencil,
        depth_stencil: a.depth_stencil,
        default_width: a.default_width,
        default_height: a.default_height,
        default_layers: a.default_layers,
        default_samples: a.default_samples,
        default_samples_fixed: a.default_samples_fixed,
    }
}

/// Whether attachment `a` is an image of `image`.
fn matches_image(a: &RawAttachment, image: PurgedImage) -> (r: bool)
    ensures
        r == attachment_matches(*a, image),
{
    match image {
        PurgedImage::Texture(t) => match a {
            RawAttachment::Texture { texture, .. } => *texture == t,
            RawAttachment::RenderBuffer(_) => false,
        },
        PurgedImage::RenderBuffer(rb) => *a == RawAttachment::RenderBuffer(rb),
    }
}

/// Whether attachments `a` contain an image of `image`.
fn contains_image(a: &RawAttachments, image: PurgedImage) -> (r: bool)
    ensures
        r == key_contains(attachments_key(*a), image),
{
    let mut i: usize = 0;
    while i < a.color.len()
        invariant
            i <= a.color@.len(),
            forall|j: int| 0 <= j < i ==> !attachment_matches(#[trigger] a.color@[j].1, image),
        decreases a.color@.len() - i,
    {
        if matches_image(&a.color[i].1, image) {
            assert(attachments_key(*a).color[i as int] == a.color@[i as int]);
            return true;
        }
        i = i + 1;
    }
    let d = match &a.depth {
        Some(x) => matches_image(x, image),
        None => false,
    };
    let s = match &a.stencil {
        Some(x) => matches_image(x, image),
        None => false,
    };
    let ds = match &a.depth_stencil {
        Some(x) => matches_image(x, image),
        None => false,
    };
    d || s || ds
}

impl FramebuffersContainer {
    /// The cached objects, each as the key of its attachments and its name, in the order in
    /// which they were recorded.
    pub closed spec fn view(&self) -> Seq<(AttachmentsKey, u32)> {
        self.framebuffers@.map_values(|e: (RawAttachments, u32)| (attachments_key(e.0), e.1))
    }

    /// Whether no two cached objects have the same attachments.
    pub open spec fn well_formed(&self) -> bool {
        keys_distinct(self.view())
    }

    /// Initializes the container.
    pub fn new() -> (r: FramebuffersContainer)
        ensures
            r@ == Seq::<(AttachmentsKey, u32)>::empty(),
            r.well_formed(),
    {
        let r = FramebuffersContainer { framebuffers: Vec::new() };
        assert(r@ =~= Seq::<(AttachmentsKey, u32)>::empty());
        r
    }

    /// Returns the name of the object cached for attachments `raw`, if there is one.
    pub fn lookup(&self, raw: &RawAttachments) -> (r: Option<u32>)
        requires
            self.well_formed(),
        ensures
            r == cached_id(self@, attachments_key(*raw)),
    {
        let ghost k = attachments_key(*raw);
        let mut i: usize = 0;
        while i < self.framebuffers.len()
            invariant
                i <= self@.len(),
                self@.len() == self.framebuffers@.len(),
                self.well_formed(),
                k == attachments_key(*raw),
                forall|j: int| 0 <= j < i ==> (#[trigger] self@[j]).0 != k,
            decreases self.framebuffers@.len() - i,
        {
            assert(self@[i as int] == (
                attachments_key(self.framebuffers@[i as int].0),
                self.framebuffers@[i as int].1,
            ));
            if same_attachments(&self.framebuffers[i].0, raw) {
                proof {
                    let c = choose|c: int| 0 <= c < self@.len() && (#[trigger] self@[c]).0 == k;
                    assert(self@[c].0 == self@[i as int].0);
                    if c != i {
                        assert(self@[c].0 != self@[i as int].0);
                    }
                }
                return Some(self.framebuffers[i].1);
            }
            i = i + 1;
        }
        None
    }

    /// Returns the framebuffer object to draw on `attachments`: the default framebuffer if
    /// none are given, else the one cached for them, if any.
    pub fn get_framebuffer_for_drawing(&self, attachments: Option<&ValidatedAttachments>) -> (r:
        FramebufferLookup)
        requires
            self.well_formed(),
        ensures
            r == (match attachments {
                None => FramebufferLookup::Default,
                Some(a) => match cached_id(self@, attachments_key(a.raw_view())) {
                    Some(id) => FramebufferLookup::Cached(id),
                    None => FramebufferLookup::Build,
                },
            }),
    {
        match attachments {
            None => FramebufferLookup::Default,
            Some(a) => match self.lookup(a.get_raw()) {
                Some(id) => FramebufferLookup::Cached(id),
                None => FramebufferLookup::Build,
            },
        }
    }

    /// Records framebuffer object `id`, built for attachments `raw`, which have none cached.
    pub fn insert(&mut self, raw: &RawAttachments, id: u32)
        requires
            old(self).well_formed(),
            cached_id(old(self)@, attachments_key(*raw)) is None,
        ensures
            final(self)@ == old(self)@.push((attachments_key(*raw), id)),
            final(self).well_formed(),
    {
        let ghost before = self@;
        let copy = copy_attachments(raw);
        self.framebuffers.push((copy, id));
        assert(self@ =~= before.push((attachments_key(*raw), id)));
        proof {
            let k = attachments_key(*raw);
            assert forall|i: int| 0 <= i < before.len() implies (#[trigger] before[i]).0 != k by {
                if before[i].0 == k {
                    assert(exists|j: int| 0 <= j < before.len() && (#[trigger] before[j]).0 == k);
                }
            }
        }
    }

    /// Removes the objects whose attachments contain an image of `image`, and returns their
    /// names, to delete them.
    fn purge_if(&mut self, image: PurgedImage) -> (r: Vec<u32>)
        requires
            old(self).well_formed(),
        ensures
            final(self)@ == kept_entries(old(self)@, image),
            r@ == purged_ids(old(self)@, image),
            final(self).well_formed(),
    {
        let ghost before = self@;
        let mut kept: Vec<(RawAttachments, u32)> = Vec::new();
        let mut purged: Vec<u32> = Vec::new();
        let mut i: usize = 0;
        while i < self.framebuffers.len()
            invariant
                i <= self.framebuffers@.len(),
                self@ == before,
                kept@.map_values(|e: (RawAttachments, u32)| (attachments_key(e.0), e.1))
                    == kept_entries(before.take(i as int), image),
                purged@ == purged_ids(before.take(i as int), image),
            decreases self.framebuffers@.len() - i,
        {
            let ghost prefix = before.take(i as int);
            assert(before.take(i + 1).drop_last() =~= prefix);
            assert(before.take(i + 1).last() == before[i as int]);
            assert(before[i as int] == (
                attachments_key(self.framebuffers@[i as int].0),
                self.framebuffers@[i as int].1,
            ));
            let ghost kept_before = kept@;
            if contains_image(&self.framebuffers[i].0, image) {
                purged.push(self.framebuffers[i].1);
            } else {
                let copy = copy_attachments(&self.framebuffers[i].0);
                kept.push((copy, self.framebuffers[i].1));
                assert(kept@.map_values(|e: (RawAttachments, u32)| (attachments_key(e.0), e.1))
                    =~= kept_before.map_values(
                    |e: (RawAttachments, u32)| (attachments_key(e.0), e.1),
                ).push(before[i as int]));
            }
            i = i + 1;
        }
        assert(before.take(i as int) =~= before);
        self.framebuffers = kept;
        proof {
            lemma_kept_entries_distinct(before, image);
        }
        purged
    }

    /// Removes the objects whose attachments contain an image of texture `texture`, and
    /// returns their names, to delete them.
    pub fn purge_texture(&mut self, texture: u32) -> (r: Vec<u32>)
        requires
            old(self).well_formed(),
        ensures
            final(self)@ == kept_entries(old(self)@, PurgedImage::Texture(texture)),
            r@ == purged_ids(old(self)@, PurgedImage::Texture(texture)),
            final(self).well_formed(),
    {
        self.purge_if(PurgedImage::Texture(texture))
    }

    /// Removes the objects whose attachments contain render buffer `renderbuffer`, and returns
    /// their names, to delete them.
    pub fn purge_renderbuffer(&mut self, renderbuffer: u32) -> (r: Vec<u32>)
        requires
            old(self).well_formed(),
        ensures
            final(self)@ == kept_entries(old(self)@, PurgedImage::RenderBuffer(renderbuffer)),
            r@ == purged_ids(old(self)@, PurgedImage::RenderBuffer(renderbuffer)),
            final(self).well_formed(),
    {
        self.purge_if(PurgedImage::RenderBuffer(renderbuffer))
    }

    /// Removes all objects, and returns their names, to delete them.
    pub fn purge_all(&mut self) -> (r: Vec<u32>)
        ensures
            final(self)@ == Seq::<(AttachmentsKey, u32)>::empty(),
            r@ == old(self)@.map_values(|e: (AttachmentsKey, u32)| e.1),
            final(self).well_formed(),
    {
        let ghost before = self@;
        let mut ids: Vec<u32> = Vec::new();
        let mut i: usize = 0;
        while i < self.framebuffers.len()
            invariant
                i <= self.framebuffers@.len(),
                self@ == before,
                ids@ == before.take(i as int).map_values(|e: (AttachmentsKey, u32)| e.1),
            decreases self.framebuffers@.len() - i,
        {
            ids.push(self.framebuffers[i].1);
            assert(before.take(i + 1) =~= before.take(i as int).push(before[i as int]));
            i = i + 1;
            assert(ids@ =~= before.take(i as int).map_values(|e: (AttachmentsKey, u32)| e.1));
        }
        assert(before.take(i as int) =~= before);
        self.framebuffers = Vec::new();
        assert(self@ =~= Seq::<(AttachmentsKey, u32)>::empty());
        ids
    }
}

/// Every entry that does not contain the purged image is kept by a purge.
proof fn lemma_kept_entries_keep(entries: Seq<(AttachmentsKey, u32)>, image: PurgedImage)
    ensures
        forall|j: int|
            0 <= j < entries.len() && !key_contains(#[trigger] entries[j].0, image) ==> exists|
                i: int,
            |
                0 <= i < kept_entries(entries, image).len() && kept_entries(entries, image)[i]
                    == entries[j],
    decreases entries.len(),
{
    if entries.len() > 0 {
        let p = entries.drop_last();
        lemma_kept_entries_keep(p, image);
        let k = kept_entries(entries, image);
        let kp = kept_entries(p, image);
        assert forall|j: int|
            0 <= j < entries.len() && !key_contains(#[trigger] entries[j].0, image) implies exists|
                i: int,
            |
                0 <= i < k.len() && k[i] == entries[j] by {
            if j < p.len() {
                assert(p[j] == entries[j]);
                assert(!key_contains(p[j].0, image));
                let i = choose|i: int| 0 <= i < kp.len() && kp[i] == p[j];
                assert(k[i] == kp[i]);
            } else {
                assert(entries[j] == entries.last());
                assert(k[k.len() - 1] == entries.last());
            }
        }
    }
}

/// After a purge, no cached framebuffer object contains the purged image, every object that
/// does not contain it stays, and no two cached objects have the same attachments if none had.
pub proof fn lemma_purge(entries: Seq<(AttachmentsKey, u32)>, image: PurgedImage)
    ensures
        forall|i: int|
            0 <= i < kept_entries(entries, image).len() ==> !key_contains(
                #[trigger] kept_entries(entries, image)[i].0,
                image,
            ),
        forall|j: int|
            0 <= j < entries.len() && !key_contains(#[trigger] entries[j].0, image) ==> exists|
                i: int,
            |
                0 <= i < kept_entries(entries, image).len() && kept_entries(entries, image)[i]
                    == entries[j],
        keys_distinct(entries) ==> keys_distinct(kept_entries(entries, image)),
{
    lemma_kept_entries_from(entries, image);
    lemma_kept_entries_keep(entries, image);
    if keys_distinct(entries) {
        lemma_kept_entries_distinct(entries, image);
    }
    assert forall|i: int|
        0 <= i < kept_entries(entries, image).len() implies !key_contains(
        #[trigger] kept_entries(entries, image)[i].0,
        image,
    ) by {
        assert(kept_entries(entries, image)[i] == kept_entries(entries, image)[i]);
    }
}

/// A framebuffer object recorded for attachments that had none is found again for them.
pub proof fn lemma_insert_then_lookup(
    entries: Seq<(AttachmentsKey, u32)>,
    k: AttachmentsKey,
    id: u32,
)
    requires
        cached_id(entries, k) is None,
    ensures
        cached_id(entries.push((k, id)), k) == Some(id),
{
    let s = entries.push((k, id));
    assert(s[entries.len() as int].0 == k);
    let c = choose|c: int| 0 <= c < s.len() && (#[trigger] s[c]).0 == k;
    if c < entries.len() {
        assert(s[c] == entries[c]);
        assert(false);
    }
}

} // verus!
