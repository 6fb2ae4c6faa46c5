use vstd::prelude::*;

use crate::frame::{
    fits, frame_ops, next_step, op_count, record_step, start_model, Command, FrameModel, Next, Op,
    Outcome, MAX_BUFFER_LEN,
};

verus! {

/// Drive a frame from state `m` over the buffer `words`, the transport
/// answering with `outcomes` in order. Gives the final state, the final
/// buffer, and every operation attempted. Once the frame has finished, or
/// an answer cannot belong to the pending operation, later answers are
/// ignored.
pub open spec fn run(m: FrameModel, words: Seq<u8>, outcomes: Seq<Outcome>) -> (FrameModel, Seq<u8>, Seq<Op>)
    decreases outcomes.len(),
{
    if outcomes.len() == 0 {
        (m, words, seq![])
    } else {
        let prev = run(m, words, outcomes.drop_last());
        match next_step(prev.0, prev.1) {
            Next::Perform(op) => if fits(op, outcomes.last()) {
                let s = record_step(prev.0, prev.1, outcomes.last());
                (s.0, s.1, prev.2.push(op))
            } else {
                prev
            },
            _ => prev,
        }
    }
}

/// The answers of a transport on which every operation of the frame
/// succeeds, the bytes received being `data` in order.
pub open spec fn replies(command: Command, words: Seq<u8>, data: Seq<u8>) -> Seq<Outcome> {
    Seq::new(
        op_count(words.len()),
        |i: int|
            match frame_ops(command, words)[i] {
                Op::Receive => Outcome::Byte(data[i - 4]),
                _ => Outcome::Done,
            },
    )
}

/// How many payload bytes have been received once the first `j` operations
/// of a frame completed.
pub open spec fn received(command: Command, j: nat) -> nat {
    if command == Command::Read && j > 4 {
        (j - 4) as nat
    } else {
        0
    }
}

/// The buffer `words` with its first `n` payload bytes taken from `data`.
pub open spec fn filled(words: Seq<u8>, data: Seq<u8>, n: nat) -> Seq<u8> {
    Seq::new(words.len(), |i: int| if 1 <= i <= n { data[i - 1] } else { words[i] })
}

proof fn lemma_ops_keep(command: Command, words: Seq<u8>, other: Seq<u8>)
    requires
        words.len() >= 1,
        other.len() == words.len(),
        other[0] == words[0],
        command == Command::Write ==> other == words,
    ensures
        frame_ops(command, other) == frame_ops(command, words),
{
    assert(frame_ops(command, other) =~= frame_ops(command, words));
}

/// After the first `j` answers of a transport on which everything succeeds,
/// a frame has attempted exactly its first `j` operations, all completed,
/// and holds the first payload bytes received.
proof fn lemma_run_prefix(command: Command, words: Seq<u8>, data: Seq<u8>, j: nat)
    requires
        1 <= words.len() <= MAX_BUFFER_LEN,
        command == Command::Read ==> data.len() == words.len() - 1,
        j <= op_count(words.len()),
    ensures
        run(start_model(command, words.len()), words, replies(command, words, data).take(j as int))
            == (FrameModel { position: j, ..start_model(command, words.len()) }, filled(
            words,
            data,
            received(command, j),
        ), frame_ops(command, words).take(j as int)),
    decreases j,
{
    let m0 = start_model(command, words.len());
    let rs = replies(command, words, data);
    let ops = frame_ops(command, words);
    if j == 0 {
        assert(rs.take(0) =~= seq![]);
        assert(filled(words, data, 0) =~= words);
        assert(ops.take(0) =~= seq![]);
    } else {
        let i = (j - 1) as nat;
        lemma_run_prefix(command, words, data, i);
        assert(rs.take(j as int).drop_last() =~= rs.take(i as int));
        assert(rs.take(j as int).last() == rs[i as int]);
        let w = filled(words, data, received(command, i));
        if command == Command::Write {
            assert(w =~= words);
        }
        lemma_ops_keep(command, words, w);
        assert(ops.take(i as int).push(ops[i as int]) =~= ops.take(j as int));
        if ops[i as int] == Op::Receive {
            assert(w.update(i - 3, data[i - 4]) =~= filled(words, data, received(command, j)));
        } else {
            assert(received(command, j) == received(command, i));
        }
    }
}

/// A write frame over a buffer of 1 to 256 bytes, on a transport that
/// accepts every byte, sends exactly `'W'`, the register, the payload
/// length and the payload, in that order, then flushes, and succeeds; the
/// buffer is left as it was.
pub proof fn lemma_write_frame(words: Seq<u8>)
    requires
        1 <= words.len() <= MAX_BUFFER_LEN,
    ensures
        ({
            let r = run(start_model(Command::Write, words.len()), words, replies(Command::Write, words, seq![]));
            &&& r.2 == frame_ops(Command::Write, words)
            &&& r.1 == words
            &&& next_step(r.0, r.1) == Next::Succeeded
        }),
{
    let rs = replies(Command::Write, words, seq![]);
    lemma_run_prefix(Command::Write, words, seq![], op_count(words.len()));
    assert(rs.take(rs.len() as int) =~= rs);
    assert(frame_ops(Command::Write, words).take(op_count(words.len()) as int) =~= frame_ops(Command::Write, words));
    assert(filled(words, seq![], 0) =~= words);
}

/// A read frame over a buffer of 1 to 256 bytes sends exactly `'R'`, the
/// register and the payload length, flushes, then receives one byte per
/// payload position; the buffer ends as the register byte, untouched,
/// followed by the bytes received in order, and the frame succeeds.
pub proof fn lemma_read_frame(words: Seq<u8>, data: Seq<u8>)
    requires
        1 <= words.len() <= MAX_BUFFER_LEN,
        data.len() == words.len() - 1,
    ensures
        ({
            let r = run(start_model(Command::Read, words.len()), words, replies(Command::Read, words, data));
            &&& r.2 == frame_ops(Command::Read, words)
            &&& r.1 == seq![words[0]] + data
            &&& next_step(r.0, r.1) == Next::Succeeded
        }),
{
    let rs = replies(Command::Read, words, data);
    let n = op_count(words.len());
    lemma_run_prefix(Command::Read, words, data, n);
    assert(rs.take(rs.len() as int) =~= rs);
    assert(frame_ops(Command::Read, words).take(n as int) =~= frame_ops(Command::Read, words));
    assert(filled(words, data, received(Command::Read, n)) =~= seq![words[0]] + data);
}

/// A frame over an empty buffer is finished from the start: whatever the
/// transport would answer, no operation is attempted and it succeeds.
pub proof fn lemma_empty_frame(command: Command, outcomes: Seq<Outcome>)
    ensures
        next_step(start_model(command, 0), seq![]) == Next::Succeeded,
        run(start_model(command, 0), seq![], outcomes) == (start_model(command, 0), Seq::<u8>::empty(), Seq::<Op>::empty()),
    decreases outcomes.len(),
{
    if outcomes.len() > 0 {
        lemma_empty_frame(command, outcomes.drop_last());
    }
}

/// When the transport fails on the `k`-th operation of a frame, exactly
/// the first `k` operations were attempted, in order, the first `k - 1`
/// of them completed, and the frame reports failure; the bytes received
/// before the failure stay in the buffer.
pub proof fn lemma_fault_at(command: Command, words: Seq<u8>, data: Seq<u8>, k: nat)
    requires
        1 <= words.len() <= MAX_BUFFER_LEN,
        command == Command::Read ==> data.len() == words.len() - 1,
        1 <= k <= op_count(words.len()),
    ensures
        ({
            let outcomes = replies(command, words, data).take(k - 1).push(Outcome::Fault);
            let r = run(start_model(command, words.len()), words, outcomes);
            &&& r.2 == frame_ops(command, words).take(k as int)
            &&& r.0.position == k - 1
            &&& r.1 == filled(words, data, received(command, (k - 1) as nat))
            &&& next_step(r.0, r.1) == Next::Failed
        }),
{
    let i = (k - 1) as nat;
    let rs = replies(command, words, data);
    let outcomes = rs.take(i as int).push(Outcome::Fault);
    lemma_run_prefix(command, words, data, i);
    assert(outcomes.drop_last() =~= rs.take(i as int));
    let w = filled(words, data, received(command, i));
    if command == Command::Write {
        assert(w =~= words);
    }
    lemma_ops_keep(command, words, w);
    let ops = frame_ops(command, words);
    assert(ops.take(i as int).push(ops[i as int]) =~= ops.take(k as int));
}

} // verus!
