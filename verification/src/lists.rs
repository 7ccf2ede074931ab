//! Structural operations on a panel's list and its selection cursor.
//!
//! Every operation is defensive: when its precondition (non-empty list,
//! in-bounds cursor) does not hold it is a guarded no-op, never a fault.
//! The cursor of a list is `0` for an empty list and otherwise a valid
//! index; after any structural mutation it is re-clamped to stay so.

use vstd::prelude::*;

verus! {

/// A cursor is valid when it is `0` for an empty list and in bounds otherwise.
pub open spec fn cursor_ok(len: nat, c: nat) -> bool {
    if len == 0 {
        c == 0
    } else {
        c < len
    }
}

/// Where the cursor lands after moving up one step.
pub open spec fn cursor_up_spec(c: nat) -> nat {
    if c > 0 {
        (c - 1) as nat
    } else {
        0
    }
}

/// Where the cursor lands after moving down one step in a list of length `len`.
pub open spec fn cursor_down_spec(len: nat, c: nat) -> nat {
    if c + 1 < len {
        c + 1
    } else {
        c
    }
}

/// Where the cursor lands after jumping to the last item.
pub open spec fn cursor_last_spec(len: nat, c: nat) -> nat {
    if len > 0 {
        (len - 1) as nat
    } else {
        c
    }
}

/// Re-clamp a cursor after the list shrank to length `len`.
pub open spec fn clamp_cursor_spec(len: nat, c: nat) -> nat {
    if c >= len && len > 0 {
        (len - 1) as nat
    } else {
        c
    }
}

/// List and cursor after dragging the current item one position up.
pub open spec fn drag_up_spec<A>(l: Seq<A>, c: nat) -> (Seq<A>, nat) {
    if 0 < c < l.len() {
        (l.update(c as int, l[c - 1]).update(c as int - 1, l[c as int]), (c - 1) as nat)
    } else {
        (l, c)
    }
}

/// List and cursor after dragging the current item one position down.
pub open spec fn drag_down_spec<A>(l: Seq<A>, c: nat) -> (Seq<A>, nat) {
    if c + 1 < l.len() {
        (l.update(c as int, l[c as int + 1]).update(c as int + 1, l[c as int]), c + 1)
    } else {
        (l, c)
    }
}

/// Destination, source and source cursor after transferring the current item
/// of the source list to the tail of the destination list.
pub open spec fn transfer_spec<A>(dst: Seq<A>, src: Seq<A>, c: nat) -> (Seq<A>, Seq<A>, nat) {
    if c < src.len() {
        (dst.push(src[c as int]), src.remove(c as int), clamp_cursor_spec((src.len() - 1) as nat, c))
    } else {
        (dst, src, c)
    }
}

/// List and cursor after deleting the current item.
pub open spec fn delete_spec<A>(l: Seq<A>, c: nat) -> (Seq<A>, nat) {
    if c < l.len() {
        (l.remove(c as int), clamp_cursor_spec((l.len() - 1) as nat, c))
    } else {
        (l, c)
    }
}

/// Move the cursor up by one, stopping at the first item.
pub fn list_up(list_curr: &mut usize)
    ensures
        *final(list_curr) == cursor_up_spec(*old(list_curr) as nat),
{
    if *list_curr > 0 {
        *list_curr = *list_curr - 1;
    }
}

/// Move the cursor down by one, stopping at the last item.
pub fn list_down(list: &Vec<String>, list_curr: &mut usize)
    ensures
        *final(list_curr) == cursor_down_spec(list@.len(), *old(list_curr) as nat),
{
    if list.len() > 0 && *list_curr < list.len() - 1 {
        *list_curr = *list_curr + 1;
    }
}

/// Jump the cursor to the first item.
pub fn list_first(list_curr: &mut usize)
    ensures
        *final(list_curr) == 0,
{
    if *list_curr > 0 {
        *list_curr = 0;
    }
}

/// Jump the cursor to the last item.
pub fn list_last(list: &Vec<String>, list_curr: &mut usize)
    ensures
        *final(list_curr) == cursor_last_spec(list@.len(), *old(list_curr) as nat),
{
    if list.len() > 0 {
        *list_curr = list.len() - 1;
    }
}

/// Swap the current item with the one above it; the cursor follows the item.
/// A no-op at the top boundary or with an out-of-bounds cursor.
pub fn list_drag_up(list: &mut Vec<String>, list_curr: &mut usize)
    ensures
        final(list)@ == drag_up_spec(old(list)@, *old(list_curr) as nat).0,
        *final(list_curr) == drag_up_spec(old(list)@, *old(list_curr) as nat).1,
        final(list).deep_view() == drag_up_spec(old(list).deep_view(), *old(list_curr) as nat).0,
        *final(list_curr) == drag_up_spec(old(list).deep_view(), *old(list_curr) as nat).1,
{
    if *list_curr > 0 && *list_curr < list.len() {
        let item = list.remove(*list_curr);
        list.insert(*list_curr - 1, item);
        *list_curr = *list_curr - 1;
        proof {
            let s = old(list)@;
            let c = *old(list_curr) as int;
            assert(list@ =~= s.update(c, s[c - 1]).update(c - 1, s[c]));
            let d = old(list).deep_view();
            assert(list.deep_view() =~= d.update(c, d[c - 1]).update(c - 1, d[c]));
        }
    } else {
        proof {
            assert(list.deep_view() =~= old(list).deep_view());
        }
    }
}

/// Swap the current item with the one below it; the cursor follows the item.
/// A no-op at the bottom boundary or with an out-of-bounds cursor.
pub fn list_drag_down(list: &mut Vec<String>, list_curr: &mut usize)
    ensures
        final(list)@ == drag_down_spec(old(list)@, *old(list_curr) as nat).0,
        *final(list_curr) == drag_down_spec(old(list)@, *old(list_curr) as nat).1,
        final(list).deep_view() == drag_down_spec(old(list).deep_view(), *old(list_curr) as nat).0,
        *final(list_curr) == drag_down_spec(old(list).deep_view(), *old(list_curr) as nat).1,
{
    if list.len() > 0 && *list_curr < list.len() - 1 {
        let item = list.remove(*list_curr);
        list.insert(*list_curr + 1, item);
        *list_curr = *list_curr + 1;
        proof {
            let s = old(list)@;
            let c = *old(list_curr) as int;
            assert(list@ =~= s.update(c, s[c + 1]).update(c + 1, s[c]));
            let d = old(list).deep_view();
            assert(list.deep_view() =~= d.update(c, d[c + 1]).update(c + 1, d[c]));
        }
    } else {
        proof {
            assert(list.deep_view() =~= old(list).deep_view());
        }
    }
}

/// Move the current item of `list_src` to the tail of `list_dst`, then
/// re-clamp the source cursor. A no-op with an out-of-bounds cursor.
pub fn list_transfer(list_dst: &mut Vec<String>, list_src: &mut Vec<String>, list_src_curr: &mut usize)
    ensures
        final(list_dst)@ == transfer_spec(old(list_dst)@, old(list_src)@, *old(list_src_curr) as nat).0,
        final(list_src)@ == transfer_spec(old(list_dst)@, old(list_src)@, *old(list_src_curr) as nat).1,
        *final(list_src_curr) == transfer_spec(old(list_dst)@, old(list_src)@, *old(list_src_curr) as nat).2,
        final(list_dst).deep_view() == transfer_spec(
            old(list_dst).deep_view(),
            old(list_src).deep_view(),
            *old(list_src_curr) as nat,
        ).0,
        final(list_src).deep_view() == transfer_spec(
            old(list_dst).deep_view(),
            old(list_src).deep_view(),
            *old(list_src_curr) as nat,
        ).1,
        *final(list_src_curr) == transfer_spec(
            old(list_dst).deep_view(),
            old(list_src).deep_view(),
            *old(list_src_curr) as nat,
        ).2,
{
    if *list_src_curr < list_src.len() {
        let item = list_src.remove(*list_src_curr);
        list_dst.push(item);
        if *list_src_curr >= list_src.len() && list_src.len() > 0 {
            *list_src_curr = list_src.len() - 1;
        }
        proof {
            let c = *old(list_src_curr) as int;
            assert(list_dst.deep_view() =~= old(list_dst).deep_view().push(
                old(list_src).deep_view()[c],
            ));
            assert(list_src.deep_view() =~= old(list_src).deep_view().remove(c));
        }
    } else {
        proof {
            assert(list_dst.deep_view() =~= old(list_dst).deep_view());
            assert(list_src.deep_view() =~= old(list_src).deep_view());
        }
    }
}

/// Delete the current item, then re-clamp the cursor. A no-op with an
/// out-of-bounds cursor.
pub fn list_delete(list: &mut Vec<String>, list_curr: &mut usize)
    ensures
        final(list)@ == delete_spec(old(list)@, *old(list_curr) as nat).0,
        *final(list_curr) == delete_spec(old(list)@, *old(list_curr) as nat).1,
        final(list).deep_view() == delete_spec(old(list).deep_view(), *old(list_curr) as nat).0,
        *final(list_curr) == delete_spec(old(list).deep_view(), *old(list_curr) as nat).1,
{
    if *list_curr < list.len() {
        let _ = list.remove(*list_curr);
        if *list_curr >= list.len() && list.len() > 0 {
            *list_curr = list.len() - 1;
        }
        proof {
            let c = *old(list_curr) as int;
            assert(list.deep_view() =~= old(list).deep_view().remove(c));
        }
    } else {
        proof {
            assert(list.deep_view() =~= old(list).deep_view());
        }
    }
}

/// Moving the cursor up or down keeps a valid cursor valid and is a no-op at
/// the respective boundary.
pub proof fn lemma_move_keeps_cursor_valid(len: nat, c: nat)
    requires
        cursor_ok(len, c),
    ensures
        cursor_ok(len, cursor_up_spec(c)),
        cursor_ok(len, cursor_down_spec(len, c)),
        c == 0 ==> cursor_up_spec(c) == c,
        len > 0 && c == len - 1 ==> cursor_down_spec(len, c) == c,
{
}

/// Dragging the current item up and then down at the landing position
/// restores both the list and the cursor, and the other way round — whenever
/// the first drag moved at all.
pub proof fn lemma_drag_round_trip<A>(l: Seq<A>, c: nat)
    requires
        c < l.len(),
    ensures
        0 < c ==> drag_down_spec(drag_up_spec(l, c).0, drag_up_spec(l, c).1) == (l, c),
        c + 1 < l.len() ==> drag_up_spec(drag_down_spec(l, c).0, drag_down_spec(l, c).1) == (l, c),
{
    if 0 < c {
        let l1 = drag_up_spec(l, c).0;
        assert(drag_down_spec(l1, (c - 1) as nat).0 =~= l);
    }
    if c + 1 < l.len() {
        let l1 = drag_down_spec(l, c).0;
        assert(drag_up_spec(l1, c + 1).0 =~= l);
    }
}

/// Transferring moves exactly one item: the total count is invariant, the
/// moved item is `src[c]` before the call and the last item of the
/// destination after it, and a valid source cursor stays valid.
pub proof fn lemma_transfer_conserves<A>(dst: Seq<A>, src: Seq<A>, c: nat)
    requires
        c < src.len(),
    ensures
        transfer_spec(dst, src, c).0.len() + transfer_spec(dst, src, c).1.len() == dst.len() + src.len(),
        transfer_spec(dst, src, c).0.last() == src[c as int],
        cursor_ok(src.len(), c) ==> cursor_ok(
            transfer_spec(dst, src, c).1.len(),
            transfer_spec(dst, src, c).2,
        ),
{
}

} // verus!
