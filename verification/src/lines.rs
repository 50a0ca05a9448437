//! The mathematical model of line-oriented reading.
//!
//! A file's contents are a sequence of bytes, the unit every cursor offset
//! counts; a line read at offset `pos` takes everything up to and including
//! the first newline byte at or after `pos`, or the whole remainder when no
//! newline is left.  `lines_from` gives the full sequence of lines a tailer
//! emits from an offset, and the lemmas here are the laws the cursor obeys:
//! the emitted lines concatenate to exactly the content after the offset,
//! and restarting at the offset reached after the first `n` lines emits
//! exactly the lines after the first `n`.

use vstd::prelude::*;

verus! {

/// The line feed byte that terminates a line.
pub const NEWLINE: u8 = 10;

/// Length in bytes of the line that a read at `pos` delivers: up to and
/// including the first newline at or after `pos`, or to the end of
/// `content` when no newline remains.  Zero only when `pos` is outside
/// `content`.
pub open spec fn line_len(content: Seq<u8>, pos: int) -> int
    decreases content.len() - pos,
{
    if pos < 0 || pos >= content.len() {
        0
    } else if content[pos] == NEWLINE {
        1
    } else {
        1 + line_len(content, pos + 1)
    }
}

/// The line that a read at `pos` delivers.
pub open spec fn line_at(content: Seq<u8>, pos: int) -> Seq<u8> {
    content.subrange(pos, pos + line_len(content, pos))
}

/// A read inside the content delivers at least one byte and never more than
/// what is left.
pub proof fn lemma_line_len_bounds(content: Seq<u8>, pos: int)
    requires
        0 <= pos < content.len(),
    ensures
        1 <= line_len(content, pos) <= content.len() - pos,
    decreases content.len() - pos,
{
    if content[pos] != NEWLINE {
        if pos + 1 < content.len() {
            lemma_line_len_bounds(content, pos + 1);
        } else {
            assert(line_len(content, pos + 1) == 0);
        }
    }
}

/// All lines emitted from `pos` to the current end of `content`, in
/// emission order.
pub open spec fn lines_from(content: Seq<u8>, pos: int) -> Seq<Seq<u8>>
    decreases content.len() - pos,
    via lines_from_decreases
{
    if pos < 0 || pos >= content.len() {
        Seq::empty()
    } else {
        seq![line_at(content, pos)] + lines_from(content, pos + line_len(content, pos))
    }
}

#[via_fn]
proof fn lines_from_decreases(content: Seq<u8>, pos: int) {
    if 0 <= pos < content.len() {
        lemma_line_len_bounds(content, pos);
    }
}

/// Law: the lines emitted from `pos`, concatenated in emission order, are
/// exactly the content from `pos` to the end — no duplication, no loss, no
/// reordering.
pub proof fn lemma_lines_concat(content: Seq<u8>, pos: int)
    requires
        0 <= pos <= content.len(),
    ensures
        lines_from(content, pos).flatten() == content.subrange(pos, content.len() as int),
    decreases content.len() - pos,
{
    if pos >= content.len() {
        assert(lines_from(content, pos).flatten() =~= content.subrange(
            pos,
            content.len() as int,
        ));
    } else {
        lemma_line_len_bounds(content, pos);
        let n = line_len(content, pos);
        lemma_lines_concat(content, pos + n);
        let s = lines_from(content, pos);
        assert(s.drop_first() =~= lines_from(content, pos + n));
        assert(s.flatten() == line_at(content, pos) + lines_from(content, pos + n).flatten());
        assert(line_at(content, pos) + content.subrange(pos + n, content.len() as int)
            =~= content.subrange(pos, content.len() as int));
    }
}

/// Law (appends disturb nothing): a line that is already newline-terminated
/// is the same line however much is appended afterwards — later appends can
/// never change, split or reorder content that was already emitted.
pub proof fn lemma_append_keeps_lines(content: Seq<u8>, tail: Seq<u8>, pos: int)
    requires
        0 <= pos < content.len(),
        line_at(content, pos).last() == NEWLINE,
    ensures
        line_len(content + tail, pos) == line_len(content, pos),
        line_at(content + tail, pos) == line_at(content, pos),
    decreases content.len() - pos,
{
    lemma_line_len_bounds(content, pos);
    let n = line_len(content, pos);
    assert(line_at(content, pos).last() == content[pos + n - 1]);
    if content[pos] == NEWLINE {
        assert(line_at(content + tail, pos) =~= line_at(content, pos));
    } else {
        if pos + 1 >= content.len() {
            // Then the line is the single unterminated byte at `pos`,
            // against the premise.
            assert(line_len(content, pos + 1) == 0);
            assert(false);
        }
        lemma_line_len_bounds(content, pos + 1);
        assert(line_at(content, pos + 1).last() == content[pos + 1 + line_len(content, pos + 1)
            - 1]);
        lemma_append_keeps_lines(content, tail, pos + 1);
        assert(line_at(content + tail, pos) =~= line_at(content, pos));
    }
}

/// The offset the cursor has reached after emitting `n` lines from `pos`.
pub open spec fn pos_after(content: Seq<u8>, pos: int, n: nat) -> int
    decreases n,
{
    if n == 0 {
        pos
    } else {
        pos_after(content, pos + line_len(content, pos), (n - 1) as nat)
    }
}

/// Law (checkpoints span the emitted text): the offset reached after `n`
/// lines cuts the content exactly at the end of what those `n` lines carried
/// — the offset attached to each emitted line accounts for every byte
/// delivered so far, no more and no less.
pub proof fn lemma_checkpoint_spans_emitted(content: Seq<u8>, pos: int, n: nat)
    requires
        0 <= pos <= content.len(),
        n <= lines_from(content, pos).len(),
    ensures
        pos <= pos_after(content, pos, n) <= content.len(),
        content.subrange(pos, pos_after(content, pos, n)) == lines_from(content, pos).take(
            n as int,
        ).flatten(),
    decreases n,
{
    let taken = lines_from(content, pos).take(n as int);
    if n == 0 {
        assert(content.subrange(pos, pos) =~= taken.flatten());
    } else {
        lemma_line_len_bounds(content, pos);
        let next = pos + line_len(content, pos);
        assert(lines_from(content, pos).drop_first() =~= lines_from(content, next));
        lemma_checkpoint_spans_emitted(content, next, (n - 1) as nat);
        let rest = lines_from(content, next).take(n as int - 1);
        assert(taken.drop_first() =~= rest);
        assert(taken.flatten() == line_at(content, pos) + rest.flatten());
        let reached = pos_after(content, next, (n - 1) as nat);
        assert(line_at(content, pos) + content.subrange(next, reached) =~= content.subrange(
            pos,
            reached,
        ));
    }
}

/// Law (checkpoint round-trip): a cursor that restarts at the offset reached
/// after the first `n` lines emits exactly the lines after the first `n` —
/// resuming from a checkpoint repeats nothing and skips nothing.
pub proof fn lemma_resume_at_checkpoint(content: Seq<u8>, pos: int, n: nat)
    requires
        0 <= pos <= content.len(),
        n <= lines_from(content, pos).len(),
    ensures
        0 <= pos_after(content, pos, n) <= content.len(),
        lines_from(content, pos_after(content, pos, n)) == lines_from(content, pos).skip(n as int),
    decreases n,
{
    if n == 0 {
        assert(lines_from(content, pos).skip(0) =~= lines_from(content, pos));
    } else {
        lemma_line_len_bounds(content, pos);
        let next = pos + line_len(content, pos);
        assert(lines_from(content, pos).drop_first() =~= lines_from(content, next));
        lemma_resume_at_checkpoint(content, next, (n - 1) as nat);
        assert(lines_from(content, pos).skip(n as int) =~= lines_from(content, next).skip(
            n as int - 1,
        ));
    }
}

} // verus!
