//! Splitting one logical command's data across multiple physical APDUs
//! bounded by a maximum chunk size, with the chaining flag set on every
//! chunk but the last.

use vstd::prelude::*;
use vstd::slice::slice_subrange;
use vstd::slice::slice_to_vec;
use vstd::arithmetic::div_mod::lemma_div_plus_one;
use crate::iso7816::operation::CmdView;
use crate::iso7816::operation::Iso7816Command;

verus! {

/// The commands that carry `cmd`'s data in pieces of at most `max` bytes:
/// every piece but the last is exactly `max` bytes with the chaining flag
/// forced on; the last piece keeps the original class byte. A command with
/// no data still yields exactly one (empty) piece.
pub open spec fn cmd_chunks(cmd: CmdView, max: int) -> Seq<CmdView>
    decreases cmd.data.len(),
{
    if max < 1 || cmd.data.len() <= max {
        seq![cmd]
    } else {
        seq![cmd.with_class(cmd.class.with_chaining_spec()).with_data(cmd.data.take(max))]
            + cmd_chunks(cmd.with_data(cmd.data.skip(max)), max)
    }
}

/// All chunk data laid end to end, in order.
pub open spec fn concat_chunk_data(chunks: Seq<CmdView>) -> Seq<u8>
    decreases chunks.len(),
{
    if chunks.len() == 0 {
        Seq::empty()
    } else {
        chunks[0].data + concat_chunk_data(chunks.skip(1))
    }
}

/// Chaining idempotence on the last chunk: a command whose data fits in one
/// chunk yields exactly that command, class byte and chaining flag
/// unchanged.
pub proof fn lemma_chunk_single(cmd: CmdView, max: int)
    requires
        cmd.data.len() <= max,
    ensures
        cmd_chunks(cmd, max) == seq![cmd],
{
}

/// Chunk count and content: N data bytes with limit M yield ceil(N/M)
/// chunks (exactly one when N = 0); every chunk but the last carries
/// exactly M bytes under the chaining flag; the last keeps the original
/// class; instruction and parameters are kept everywhere; and the chunks'
/// data concatenates back to the original data.
pub proof fn lemma_chunk_shape(cmd: CmdView, max: int)
    requires
        max >= 1,
    ensures
        cmd_chunks(cmd, max).len() == (if cmd.data.len() == 0 {
            1int
        } else {
            (cmd.data.len() + max - 1) / max
        }),
        concat_chunk_data(cmd_chunks(cmd, max)) == cmd.data,
        forall|i: int|
            0 <= i < cmd_chunks(cmd, max).len() - 1 ==> (#[trigger] cmd_chunks(cmd, max)[i]).class
                == cmd.class.with_chaining_spec() && cmd_chunks(cmd, max)[i].data.len() == max,
        cmd_chunks(cmd, max).last().class == cmd.class,
        forall|i: int|
            0 <= i < cmd_chunks(cmd, max).len() ==> (#[trigger] cmd_chunks(cmd, max)[i]).data.len()
                <= max && cmd_chunks(cmd, max)[i].instruction == cmd.instruction && cmd_chunks(
                cmd,
                max,
            )[i].parameters == cmd.parameters,
    decreases cmd.data.len(),
{
    let chunks = cmd_chunks(cmd, max);
    if cmd.data.len() <= max {
        assert(chunks == seq![cmd]);
        assert(chunks.skip(1) =~= Seq::<CmdView>::empty());
        assert(concat_chunk_data(Seq::<CmdView>::empty()) == Seq::<u8>::empty());
        assert(concat_chunk_data(chunks) == cmd.data + concat_chunk_data(chunks.skip(1)));
        assert(cmd.data + Seq::<u8>::empty() =~= cmd.data);
        if cmd.data.len() > 0 {
            assert((cmd.data.len() + max - 1) / max == 1) by (nonlinear_arith)
                requires
                    max >= 1,
                    0 < cmd.data.len() <= max,
            ;
        }
    } else {
        let head = cmd.with_class(cmd.class.with_chaining_spec()).with_data(cmd.data.take(max));
        let tail_cmd = cmd.with_data(cmd.data.skip(max));
        let tail = cmd_chunks(tail_cmd, max);
        lemma_chunk_shape(tail_cmd, max);
        assert(chunks == seq![head] + tail);
        let n = cmd.data.len() as int;
        assert(tail_cmd.data.len() == n - max);
        lemma_div_plus_one(n - 1, max);
        assert(chunks.len() == 1 + tail.len());
        assert(chunks.len() == (n + max - 1) / max);
        // data concatenates back
        assert((seq![head] + tail).skip(1) =~= tail);
        assert(concat_chunk_data(chunks) == head.data + concat_chunk_data(tail));
        assert(head.data + tail_cmd.data =~= cmd.data);
        // header fields carry over chunk by chunk
        assert forall|i: int| 0 <= i < chunks.len() - 1 implies (#[trigger] chunks[i]).class
            == cmd.class.with_chaining_spec() && chunks[i].data.len() == max by {
            if i > 0 {
                assert(chunks[i] == tail[i - 1]);
            }
        }
        assert(chunks.last() == tail.last());
        assert forall|i: int| 0 <= i < chunks.len() implies (#[trigger] chunks[i]).data.len() <= max
            && chunks[i].instruction == cmd.instruction && chunks[i].parameters
            == cmd.parameters by {
            if i > 0 {
                assert(chunks[i] == tail[i - 1]);
            }
        }
    }
}

/// Hands out the pieces of one oversized command, largest-first, finitely
/// and without restart.
pub struct CommandChunker {
    base_command: Iso7816Command,
    max_size: usize,
    offset: usize,
    done: bool,
}

impl CommandChunker {
    /// Internal consistency: a positive chunk size, and an offset inside
    /// the data while pieces remain.
    pub closed spec fn wf(self) -> bool {
        &&& self.max_size >= 1
        &&& self.offset <= self.base_command@.data.len()
        &&& (self.base_command@.data.len() > 0 && !self.done ==> self.offset
            < self.base_command@.data.len())
    }

    /// The pieces not yet handed out.
    pub closed spec fn remaining(self) -> Seq<CmdView> {
        if self.done {
            Seq::empty()
        } else {
            cmd_chunks(
                self.base_command@.with_data(self.base_command@.data.skip(self.offset as int)),
                self.max_size as int,
            )
        }
    }

    /// Begins chunking `base_command` into pieces of at most `max_size`
    /// data bytes.
    pub(crate) fn start(base_command: Iso7816Command, max_size: usize) -> (r: Self)
        requires
            max_size >= 1,
        ensures
            r.wf(),
            r.remaining() == cmd_chunks(base_command@, max_size as int),
    {
        let r = CommandChunker { base_command, max_size, offset: 0, done: false };
        proof {
            assert(r.base_command@.with_data(r.base_command@.data.skip(0)) =~= r.base_command@);
        }
        r
    }

    /// Whether every piece has been handed out.
    pub fn is_done(&self) -> (r: bool)
        ensures
            r == (self.remaining().len() == 0),
    {
        proof {
            if !self.done {
                assert(self.remaining().len() >= 1);
            }
        }
        self.done
    }

    /// Hands out the next piece: data bytes `offset .. offset + max_size`
    /// of the original command (or what is left of them), chained unless it
    /// is the last piece.
    pub fn next(&mut self) -> (r: Option<Iso7816Command>)
        requires
            old(self).wf(),
        ensures
            final(self).wf(),
            r is Some <==> old(self).remaining().len() > 0,
            r is Some ==> r->Some_0@ == old(self).remaining()[0] && final(self).remaining()
                == old(self).remaining().skip(1),
            r is None ==> *final(self) == *old(self),
    {
        if self.done {
            return None;
        }
        let ghost rem = self.remaining();
        let ghost head_cmd = self.base_command@.with_data(
            self.base_command@.data.skip(self.offset as int),
        );
        let total_len = self.base_command.data.len();
        if total_len == 0 {
            self.done = true;
            let out = self.base_command.duplicate();
            proof {
                assert(head_cmd =~= self.base_command@);
                assert(rem == seq![self.base_command@]);
                assert(rem.skip(1) =~= Seq::<CmdView>::empty());
            }
            return Some(out);
        }
        let remaining_len = total_len - self.offset;
        let chunk_size = if remaining_len < self.max_size {
            remaining_len
        } else {
            self.max_size
        };
        let start = self.offset;
        let end = self.offset + chunk_size;
        let data_slice = slice_subrange(self.base_command.data.as_slice(), start, end);
        let chunk_data = slice_to_vec(data_slice);
        self.offset = end;
        if self.offset >= total_len {
            self.done = true;
            let out = Iso7816Command {
                class: self.base_command.class,
                instruction: self.base_command.instruction,
                parameters: self.base_command.parameters,
                data: chunk_data,
            };
            proof {
                assert(head_cmd.data.len() <= self.max_size as int);
                assert(rem == seq![head_cmd]);
                assert(out@.data =~= head_cmd.data);
                assert(out@ =~= head_cmd);
                assert(rem.skip(1) =~= Seq::<CmdView>::empty());
            }
            return Some(out);
        }
        let out = Iso7816Command {
            class: self.base_command.class.with_chaining(),
            instruction: self.base_command.instruction,
            parameters: self.base_command.parameters,
            data: chunk_data,
        };
        proof {
            assert(head_cmd.data.len() > self.max_size as int);
            let spec_head = head_cmd.with_class(head_cmd.class.with_chaining_spec()).with_data(
                head_cmd.data.take(self.max_size as int),
            );
            assert(rem == seq![spec_head] + cmd_chunks(
                head_cmd.with_data(head_cmd.data.skip(self.max_size as int)),
                self.max_size as int,
            ));
            assert(out@.data =~= spec_head.data);
            assert(out@ =~= spec_head);
            assert(head_cmd.with_data(head_cmd.data.skip(self.max_size as int)) =~= self.base_command@.with_data(
                self.base_command@.data.skip(self.offset as int),
            ));
            assert(rem.skip(1) =~= self.remaining());
        }
        Some(out)
    }
}

} // verus!
