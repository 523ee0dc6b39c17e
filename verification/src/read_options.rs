use vstd::prelude::*;

verus! {

/// The abstract content of a [`ReadOptions`]: its four switches.
pub struct ReadOptionsView {
    pub prune_row_groups: bool,
    pub prune_pages: bool,
    pub do_prewhere: bool,
    pub push_down_bitmap: bool,
}

/// The options that every `ReadOptions::new()` starts from: all switches off.
pub open spec fn spec_default_options() -> ReadOptionsView {
    ReadOptionsView {
        prune_row_groups: false,
        prune_pages: false,
        do_prewhere: false,
        push_down_bitmap: false,
    }
}

/// `push_down_bitmap` and `prune_pages` never hold together.
pub open spec fn options_exclusive(v: ReadOptionsView) -> bool {
    !(v.push_down_bitmap && v.prune_pages)
}

pub open spec fn spec_with_prune_row_groups(v: ReadOptionsView) -> ReadOptionsView {
    ReadOptionsView { prune_row_groups: true, ..v }
}

pub open spec fn spec_with_prune_pages(v: ReadOptionsView) -> ReadOptionsView {
    ReadOptionsView { prune_pages: true, push_down_bitmap: false, ..v }
}

pub open spec fn spec_with_push_down_bitmap(v: ReadOptionsView) -> ReadOptionsView {
    ReadOptionsView { push_down_bitmap: true, prune_pages: false, ..v }
}

pub open spec fn spec_with_do_prewhere(v: ReadOptionsView) -> ReadOptionsView {
    ReadOptionsView { do_prewhere: true, ..v }
}

/// Options for reading parquet files.
#[derive(Copy, Clone, Debug)]
pub struct ReadOptions {
    /// Prune row groups before reading. Require Chunk level statistics.
    /// Filter row groups don't need to read.
    prune_row_groups: bool,
    /// Prune pages before reading. Require Page level statistics.
    /// Filter rows don't need to read.
    prune_pages: bool,
    /// If use prewhere filter.
    do_prewhere: bool,
    /// If push down bitmap generated by prewhere reader to remain reader.
    /// If true, when remain reader deserializing,
    /// it will skip part of decompression and decoding according to the bitmap.
    ///
    /// `push_down_bitmap` and `prune_pages` are exclusive; if `do_prewhere`
    /// is disabled, `push_down_bitmap` is useless.
    push_down_bitmap: bool,
}

impl View for ReadOptions {
    type V = ReadOptionsView;

    closed spec fn view(&self) -> ReadOptionsView {
        ReadOptionsView {
            prune_row_groups: self.prune_row_groups,
            prune_pages: self.prune_pages,
            do_prewhere: self.do_prewhere,
            push_down_bitmap: self.push_down_bitmap,
        }
    }
}

impl ReadOptions {
    #[verifier::type_invariant]
    spec fn exclusive(self) -> bool {
        options_exclusive(self@)
    }

    pub fn new() -> (r: Self)
        ensures
            r@ == spec_default_options(),
    {
        ReadOptions {
            prune_row_groups: false,
            prune_pages: false,
            do_prewhere: false,
            push_down_bitmap: false,
        }
    }

    pub fn with_prune_row_groups(self) -> (r: Self)
        ensures
            r@ == spec_with_prune_row_groups(self@),
    {
        proof {
            use_type_invariant(&self);
        }
        ReadOptions { prune_row_groups: true, ..self }
    }

    pub fn with_prune_pages(self) -> (r: Self)
        ensures
            r@ == spec_with_prune_pages(self@),
    {
        ReadOptions {
            prune_row_groups: self.prune_row_groups,
            prune_pages: true,
            do_prewhere: self.do_prewhere,
            push_down_bitmap: false,
        }
    }

    pub fn with_push_down_bitmap(self) -> (r: Self)
        ensures
            r@ == spec_with_push_down_bitmap(self@),
    {
        ReadOptions {
            prune_row_groups: self.prune_row_groups,
            prune_pages: false,
            do_prewhere: self.do_prewhere,
            push_down_bitmap: true,
        }
    }

    pub fn with_do_prewhere(self) -> (r: Self)
        ensures
            r@ == spec_with_do_prewhere(self@),
    {
        proof {
            use_type_invariant(&self);
        }
        ReadOptions { do_prewhere: true, ..self }
    }

    pub fn prune_row_groups(&self) -> (r: bool)
        ensures
            r == self@.prune_row_groups,
    {
        self.prune_row_groups
    }

    pub fn prune_pages(&self) -> (r: bool)
        ensures
            r == self@.prune_pages,
            r ==> !self@.push_down_bitmap,
    {
        proof {
            use_type_invariant(self);
        }
        self.prune_pages
    }

    pub fn push_down_bitmap(&self) -> (r: bool)
        ensures
            r == self@.push_down_bitmap,
            r ==> !self@.prune_pages,
    {
        proof {
            use_type_invariant(self);
        }
        self.push_down_bitmap
    }

    pub fn do_prewhere(&self) -> (r: bool)
        ensures
            r == self@.do_prewhere,
    {
        self.do_prewhere
    }
}

impl Default for ReadOptions {
    fn default() -> (r: Self)
        ensures
            r@ == spec_default_options(),
    {
        ReadOptions::new()
    }
}

} // verus!

verus! {

/// Options built by `new` have `push_down_bitmap` and `prune_pages` apart.
pub proof fn lemma_default_options_exclusive()
    ensures
        options_exclusive(spec_default_options()),
{
}

/// Every builder keeps `push_down_bitmap` and `prune_pages` apart; the two
/// that set one of them clear the other, whatever they start from.
pub proof fn lemma_builders_keep_exclusive(v: ReadOptionsView)
    ensures
        options_exclusive(v) ==> options_exclusive(spec_with_prune_row_groups(v)),
        options_exclusive(v) ==> options_exclusive(spec_with_do_prewhere(v)),
        options_exclusive(spec_with_prune_pages(v)),
        options_exclusive(spec_with_push_down_bitmap(v)),
{
}

/// Of `with_prune_pages` and `with_push_down_bitmap`, the one called last wins.
pub proof fn lemma_last_of_pages_and_bitmap_wins(v: ReadOptionsView)
    ensures
        spec_with_push_down_bitmap(spec_with_prune_pages(v)) == spec_with_push_down_bitmap(v),
        spec_with_prune_pages(spec_with_push_down_bitmap(v)) == spec_with_prune_pages(v),
{
}

/// Calling a builder twice is the same as calling it once.
pub proof fn lemma_builders_idempotent(v: ReadOptionsView)
    ensures
        spec_with_prune_row_groups(spec_with_prune_row_groups(v)) == spec_with_prune_row_groups(v),
        spec_with_prune_pages(spec_with_prune_pages(v)) == spec_with_prune_pages(v),
        spec_with_push_down_bitmap(spec_with_push_down_bitmap(v)) == spec_with_push_down_bitmap(v),
        spec_with_do_prewhere(spec_with_do_prewhere(v)) == spec_with_do_prewhere(v),
{
}

/// `with_prune_row_groups` and `with_do_prewhere` touch only their own switch:
/// they commute with every builder.
pub proof fn lemma_independent_builders_commute(v: ReadOptionsView)
    ensures
        spec_with_prune_row_groups(spec_with_prune_pages(v)) == spec_with_prune_pages(spec_with_prune_row_groups(v)),
        spec_with_prune_row_groups(spec_with_push_down_bitmap(v)) == spec_with_push_down_bitmap(spec_with_prune_row_groups(v)),
        spec_with_prune_row_groups(spec_with_do_prewhere(v)) == spec_with_do_prewhere(spec_with_prune_row_groups(v)),
        spec_with_do_prewhere(spec_with_prune_pages(v)) == spec_with_prune_pages(spec_with_do_prewhere(v)),
        spec_with_do_prewhere(spec_with_push_down_bitmap(v)) == spec_with_push_down_bitmap(spec_with_do_prewhere(v)),
{
}

} // verus!

verus! {

/// What each builder does: it turns its own switch on, `with_prune_pages` and
/// `with_push_down_bitmap` turn the other of the two off, and no builder
/// touches any other switch.
pub proof fn lemma_builder_effects(v: ReadOptionsView)
    ensures
        spec_with_prune_row_groups(v).prune_row_groups,
        spec_with_prune_row_groups(v).prune_pages == v.prune_pages,
        spec_with_prune_row_groups(v).do_prewhere == v.do_prewhere,
        spec_with_prune_row_groups(v).push_down_bitmap == v.push_down_bitmap,
        spec_with_prune_pages(v).prune_pages,
        !spec_with_prune_pages(v).push_down_bitmap,
        spec_with_prune_pages(v).prune_row_groups == v.prune_row_groups,
        spec_with_prune_pages(v).do_prewhere == v.do_prewhere,
        spec_with_push_down_bitmap(v).push_down_bitmap,
        !spec_with_push_down_bitmap(v).prune_pages,
        spec_with_push_down_bitmap(v).prune_row_groups == v.prune_row_groups,
        spec_with_push_down_bitmap(v).do_prewhere == v.do_prewhere,
        spec_with_do_prewhere(v).do_prewhere,
        spec_with_do_prewhere(v).prune_row_groups == v.prune_row_groups,
        spec_with_do_prewhere(v).prune_pages == v.prune_pages,
        spec_with_do_prewhere(v).push_down_bitmap == v.push_down_bitmap,
        !spec_default_options().prune_row_groups,
        !spec_default_options().prune_pages,
        !spec_default_options().do_prewhere,
        !spec_default_options().push_down_bitmap,
{
}

} // verus!
