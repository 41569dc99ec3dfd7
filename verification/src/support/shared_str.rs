//! Reference-counted strings of `arcstr`: the text lies behind a header in
//! one block that all clones share, or in static memory.

use crate::context::{Context, Tally};
use crate::measure::SizeOf;
use vstd::layout::size_of;
use vstd::prelude::*;

verus! {

/// `arcstr::ArcStr`, a handle to a shared string.
#[verifier::external_type_specification]
#[verifier::external_body]
pub struct ExArcStr(arcstr::ArcStr);

/// `arcstr::Substr`, a range of a shared string together with a handle to
/// the whole.
#[verifier::external_type_specification]
#[verifier::external_body]
pub struct ExSubstr(arcstr::Substr);

/// A stand-in for what precedes the text in the block of a shared string: its
/// length and its count of handles, each with a flag.
pub struct ArcStrHeader {
    len_flags: usize,
    strong: usize,
}

/// The address of the text of `text`, from `str::as_ptr` on the string it
/// dereferences to. Nothing is claimed of the number.
#[verifier::external_body]
fn arc_str_address(text: &arcstr::ArcStr) -> usize {
    text.as_ptr().addr()
}

/// `ArcStr::len`: the length of the text in bytes. Nothing is claimed of
/// the number.
#[verifier::external_body]
fn arc_str_len(text: &arcstr::ArcStr) -> usize {
    text.len()
}

/// `ArcStr::is_static`: whether the text lies in static memory, or was
/// leaked, rather than in a counted block. Nothing is claimed of the answer.
#[verifier::external_body]
fn arc_str_is_static(text: &arcstr::ArcStr) -> bool {
    arcstr::ArcStr::is_static(text)
}

/// `Substr::parent`: the handle to the whole string that the range lies in.
/// Nothing is claimed of it.
#[verifier::external_body]
fn substr_parent(range: &arcstr::Substr) -> &arcstr::ArcStr {
    range.parent()
}

/// The tally after a shared string of `len` bytes at `address` was charged
/// to `self`. One that was seen before adds nothing. One that is new is
/// recorded, and its header and text are charged as shared bytes; a block
/// that is not static counts as one allocation.
pub open spec fn shared_str_charged(
    address: usize,
    len: nat,
    is_static: bool,
    before: Tally,
) -> Tally {
    if before.visited.contains(address) {
        before
    } else {
        let charged = before.mark(address).sharing(true).charge(size_of::<ArcStrHeader>() + len)
            .sharing(before.is_shared);
        if is_static {
            charged
        } else {
            charged.allocate(1)
        }
    }
}

/// Charges to `context` a shared string whose text of `len` bytes lies at
/// `address`, in static memory or not.
pub fn size_of_shared_str(context: &mut Context, address: usize, len: usize, is_static: bool)
    ensures
        final(context)@ == shared_str_charged(address, len as nat, is_static, old(context)@),
        final(context)@.extends(old(context)@),
{
    let ghost before = context@;
    if context.insert_ptr(address) {
        let ghost entered = context@.sharing(true);
        let charge_text = |inner: &mut Context|
            requires
                old(inner)@ == entered,
            ensures
                final(inner)@ == entered.charge(size_of::<ArcStrHeader>() + len as nat),
            {
                // The header, then the text
                inner.add(core::mem::size_of::<ArcStrHeader>()).add(len);
            };
        context.shared(charge_text);
        // Static strings take no allocation.
        if !is_static {
            context.add_distinct_allocation();
        }
    } else {
        assert(before.mark(address).visited =~= before.visited);
    }
}

impl SizeOf for arcstr::ArcStr {
    open spec fn children_charged(&self, before: Tally, after: Tally) -> bool {
        exists|address: usize, len: usize, is_static: bool|
            after == #[trigger] shared_str_charged(address, len as nat, is_static, before)
    }

    fn size_of_children(&self, context: &mut Context) {
        let len = arc_str_len(self);
        size_of_shared_str(context, arc_str_address(self), len, arc_str_is_static(self));
    }
}

impl SizeOf for arcstr::Substr {
    open spec fn children_charged(&self, before: Tally, after: Tally) -> bool {
        exists|parent: arcstr::ArcStr| #[trigger] parent.children_charged(before, after)
    }

    fn size_of_children(&self, context: &mut Context) {
        substr_parent(self).size_of_children(context);
    }
}

} // verus!
