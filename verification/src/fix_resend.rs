//! Answers to a peer's FIX `ResendRequest(2)`: each requested sequence is
//! either replayed from the retained originals or covered, with its
//! non-replayable neighbours, by one `SequenceReset-GapFill(4)`.

use vstd::prelude::*;

verus! {

/// One step of a resend answer.
#[derive(Debug, Clone, Copy, PartialEq, Eq, Structural)]
pub enum FixResendAction {
    /// Replay the retained original with this sequence number.
    Replay(u64),
    /// Skip the sequences `begin..=end` with one gap fill.
    GapFill {
        /// First skipped sequence.
        begin: u64,
        /// Last skipped sequence.
        end: u64,
    },
}

/// Why a resend request was refused.
#[derive(Debug, Clone, Copy, PartialEq, Eq, Structural)]
pub enum FixResendError {
    /// The range begins at zero or after its end.
    InvalidRange,
    /// The range spans more sequences than configured.
    RangeTooLarge {
        /// Requested span.
        span: u64,
        /// Configured maximum span.
        max: usize,
    },
    /// The answer needs more actions than configured.
    TooManyActions,
}

/// The actions for the sequences `begin..s`, and the start of the gap
/// still open after them: replayable sequences are replayed, each run of
/// others becomes one gap fill once a replayable sequence closes it.
pub open spec fn spec_resend_fold(begin: nat, s: nat, replayable: Seq<u64>) -> (
    Seq<FixResendAction>,
    Option<u64>,
)
    decreases s - begin,
{
    if s <= begin {
        (Seq::empty(), None)
    } else {
        let prev = spec_resend_fold(begin, (s - 1) as nat, replayable);
        let q = (s - 1) as u64;
        if replayable.contains(q) {
            let closed = match prev.1 {
                Some(g) => prev.0.push(FixResendAction::GapFill { begin: g, end: (q - 1) as u64 }),
                None => prev.0,
            };
            (closed.push(FixResendAction::Replay(q)), None)
        } else {
            (prev.0, if prev.1 is None { Some(q) } else { prev.1 })
        }
    }
}

/// The actions answering the sequences `begin..=end`.
pub open spec fn spec_resend_actions(begin: u64, end: u64, replayable: Seq<u64>) -> Seq<
    FixResendAction,
> {
    let f = spec_resend_fold(begin as nat, end as nat + 1, replayable);
    match f.1 {
        Some(g) => f.0.push(FixResendAction::GapFill { begin: g, end }),
        None => f.0,
    }
}

/// The answer to a resend request for `begin_seq_no..=end_seq_no` (an end
/// of zero meaning the newest retained sequence): nothing when the end is
/// open and nothing is retained; `InvalidRange` for a zero begin or a
/// begin after the end; `RangeTooLarge` when the span exceeds
/// `max_resend_sequences`; `TooManyActions` when the answer exceeds
/// `max_resend_actions`; else the actions.
pub open spec fn spec_resend_answer(
    begin_seq_no: u64,
    end_seq_no: u64,
    newest_seq_no: Option<u64>,
    replayable: Seq<u64>,
    max_resend_sequences: usize,
    max_resend_actions: usize,
) -> Result<Seq<FixResendAction>, FixResendError> {
    let end = if end_seq_no == 0 {
        newest_seq_no
    } else {
        Some(end_seq_no)
    };
    match end {
        None => Ok(Seq::empty()),
        Some(end) => if begin_seq_no == 0 || begin_seq_no > end {
            Err(FixResendError::InvalidRange)
        } else if end - begin_seq_no + 1 > max_resend_sequences {
            Err(
                FixResendError::RangeTooLarge {
                    span: (end - begin_seq_no + 1) as u64,
                    max: max_resend_sequences,
                },
            )
        } else if spec_resend_actions(begin_seq_no, end, replayable).len() > max_resend_actions {
            Err(FixResendError::TooManyActions)
        } else {
            Ok(spec_resend_actions(begin_seq_no, end, replayable))
        },
    }
}

/// Whether `sequence` is among the replayable sequences.
fn is_replayable(replayable: &[u64], sequence: u64) -> (r: bool)
    ensures
        r == replayable@.contains(sequence),
{
    let mut i: usize = 0;
    while i < replayable.len()
        invariant
            i <= replayable@.len(),
            forall|k: int| 0 <= k < i ==> replayable@[k] != sequence,
        decreases replayable@.len() - i,
    {
        if replayable[i] == sequence {
            return true;
        }
        i = i + 1;
    }
    false
}

/// Plans the answer to a peer's resend request for
/// `begin_seq_no..=end_seq_no`, where `newest_seq_no` is the newest
/// retained outbound sequence and `replayable` the retained sequences that
/// may be replayed.
pub fn build_resend_actions(
    begin_seq_no: u64,
    end_seq_no: u64,
    newest_seq_no: Option<u64>,
    replayable: &[u64],
    max_resend_sequences: usize,
    max_resend_actions: usize,
) -> (r: Result<Vec<FixResendAction>, FixResendError>)
    ensures
        match spec_resend_answer(
            begin_seq_no,
            end_seq_no,
            newest_seq_no,
            replayable@,
            max_resend_sequences,
            max_resend_actions,
        ) {
            Ok(actions) => r matches Ok(v) && v@ == actions,
            Err(e) => r == Err::<Vec<FixResendAction>, FixResendError>(e),
        },
{
    let end = if end_seq_no == 0 {
        match newest_seq_no {
            Some(n) => n,
            None => {
                return Ok(Vec::new());
            },
        }
    } else {
        end_seq_no
    };
    if begin_seq_no == 0 || begin_seq_no > end {
        return Err(FixResendError::InvalidRange);
    }
    let span: u64 = end - begin_seq_no + 1;
    if span > max_resend_sequences as u64 {
        return Err(FixResendError::RangeTooLarge { span, max: max_resend_sequences });
    }
    let mut actions: Vec<FixResendAction> = Vec::new();
    let mut gap_start: Option<u64> = None;
    let mut sequence: u64 = begin_seq_no;
    let mut done = false;
    while !done
        invariant
            1 <= begin_seq_no <= sequence <= end,
            done ==> sequence == end,
            (actions@, gap_start) == spec_resend_fold(
                begin_seq_no as nat,
                if done {
                    end as nat + 1
                } else {
                    sequence as nat
                },
                replayable@,
            ),
            actions@.len() <= max_resend_actions,
            end - begin_seq_no + 1 <= max_resend_sequences,
            end_seq_no != 0 ==> end == end_seq_no,
            end_seq_no == 0 ==> newest_seq_no == Some(end),
        decreases end - sequence + (if done {
            0int
        } else {
            1int
        }),
    {
        if is_replayable(replayable, sequence) {
            match gap_start {
                Some(g) => {
                    if actions.len() >= max_resend_actions {
                        proof {
                            lemma_fold_grows(
                                begin_seq_no,
                                (sequence + 1) as nat,
                                end as nat + 1,
                                replayable@,
                            );
                            assert(spec_resend_fold(
                                begin_seq_no as nat,
                                (sequence + 1) as nat,
                                replayable@,
                            ).0.len() > max_resend_actions);
                            assert(spec_resend_actions(begin_seq_no, end, replayable@).len()
                                > max_resend_actions);
                        }
                        return Err(FixResendError::TooManyActions);
                    }
                    actions.push(FixResendAction::GapFill { begin: g, end: sequence - 1 });
                    gap_start = None;
                },
                None => {},
            }
            if actions.len() >= max_resend_actions {
                proof {
                    lemma_fold_grows(
                        begin_seq_no,
                        (sequence + 1) as nat,
                        end as nat + 1,
                        replayable@,
                    );
                    assert(spec_resend_fold(
                        begin_seq_no as nat,
                        (sequence + 1) as nat,
                        replayable@,
                    ).0.len() > max_resend_actions);
                    assert(spec_resend_actions(begin_seq_no, end, replayable@).len()
                        > max_resend_actions);
                }
                return Err(FixResendError::TooManyActions);
            }
            actions.push(FixResendAction::Replay(sequence));
        } else if gap_start.is_none() {
            gap_start = Some(sequence);
        }
        if sequence == end {
            done = true;
        } else {
            sequence = sequence + 1;
        }
    }
    match gap_start {
        Some(g) => {
            if actions.len() >= max_resend_actions {
                return Err(FixResendError::TooManyActions);
            }
            actions.push(FixResendAction::GapFill { begin: g, end });
        },
        None => {},
    }
    Ok(actions)
}

/// The actions planned for a prefix of the range are never more than those
/// for a longer one.
proof fn lemma_fold_grows(begin: u64, s: nat, t: nat, replayable: Seq<u64>)
    requires
        begin <= s <= t,
    ensures
        spec_resend_fold(begin as nat, s, replayable).0.len() <= spec_resend_fold(
            begin as nat,
            t,
            replayable,
        ).0.len(),
    decreases t - s,
{
    if s < t {
        lemma_fold_grows(begin, s, (t - 1) as nat, replayable);
    }
}

/// The first sequence an action answers.
pub open spec fn spec_action_first(a: FixResendAction) -> int {
    match a {
        FixResendAction::Replay(q) => q as int,
        FixResendAction::GapFill { begin, .. } => begin as int,
    }
}

/// The last sequence an action answers.
pub open spec fn spec_action_last(a: FixResendAction) -> int {
    match a {
        FixResendAction::Replay(q) => q as int,
        FixResendAction::GapFill { end, .. } => end as int,
    }
}

/// A replay is of a replayable sequence, and a gap fill is a non-empty run
/// of sequences none of which is replayable.
pub open spec fn spec_action_sound(a: FixResendAction, replayable: Seq<u64>) -> bool {
    match a {
        FixResendAction::Replay(q) => replayable.contains(q),
        FixResendAction::GapFill { begin, end } => begin <= end && forall|q: u64|
            begin <= q <= end ==> !replayable.contains(q),
    }
}

/// The actions answer `begin..` contiguously, in order, each soundly, up to
/// (excluding) the sequence returned.
pub open spec fn spec_tiles_from(acts: Seq<FixResendAction>, begin: int, replayable: Seq<u64>) -> bool {
    &&& acts.len() > 0 ==> spec_action_first(acts[0]) == begin
    &&& forall|i: int|
        0 <= i < acts.len() - 1 ==> spec_action_last(#[trigger] acts[i]) + 1 == spec_action_first(
            acts[i + 1],
        )
    &&& forall|i: int| 0 <= i < acts.len() ==> spec_action_sound(#[trigger] acts[i], replayable)
}

/// The first sequence after the actions.
pub open spec fn spec_next_after(acts: Seq<FixResendAction>, begin: int) -> int {
    if acts.len() == 0 {
        begin
    } else {
        spec_action_last(acts.last()) + 1
    }
}

/// The fold tiles `begin..s`: its actions tile up to the open gap, which
/// (when present) starts right after them and holds no replayable
/// sequence.
proof fn lemma_fold_tiles(begin: u64, s: nat, replayable: Seq<u64>)
    requires
        1 <= begin <= s <= u64::MAX + 1,
    ensures
        ({
            let f = spec_resend_fold(begin as nat, s, replayable);
            &&& spec_tiles_from(f.0, begin as int, replayable)
            &&& f.1 is None ==> spec_next_after(f.0, begin as int) == s
            &&& f.1 matches Some(g) ==> g == spec_next_after(f.0, begin as int) && g < s
                && forall|q: u64| g <= q < s ==> !replayable.contains(q)
        }),
    decreases s - begin,
{
    if s > begin {
        lemma_fold_tiles(begin, (s - 1) as nat, replayable);
        let prev = spec_resend_fold(begin as nat, (s - 1) as nat, replayable);
        let q = (s - 1) as u64;
        let f = spec_resend_fold(begin as nat, s, replayable);
        if replayable.contains(q) {
            let closed = match prev.1 {
                Some(g) => prev.0.push(FixResendAction::GapFill { begin: g, end: (q - 1) as u64 }),
                None => prev.0,
            };
            assert(spec_tiles_from(closed, begin as int, replayable)) by {
                if let Some(g) = prev.1 {
                    let n = closed;
                    assert forall|i: int| 0 <= i < n.len() - 1 implies spec_action_last(
                        #[trigger] n[i],
                    ) + 1 == spec_action_first(n[i + 1]) by {
                        if i < n.len() - 2 {
                            assert(n[i] == prev.0[i]);
                            assert(n[i + 1] == prev.0[i + 1]);
                        } else {
                            assert(n[i] == prev.0.last());
                        }
                    }
                    assert forall|i: int| 0 <= i < n.len() implies spec_action_sound(
                        #[trigger] n[i],
                        replayable,
                    ) by {
                        if i < n.len() - 1 {
                            assert(n[i] == prev.0[i]);
                        }
                    }
                }
            }
            assert(spec_next_after(closed, begin as int) == q);
            let n = f.0;
            assert(n == closed.push(FixResendAction::Replay(q)));
            assert forall|i: int| 0 <= i < n.len() - 1 implies spec_action_last(#[trigger] n[i])
                + 1 == spec_action_first(n[i + 1]) by {
                if i < n.len() - 2 {
                    assert(n[i] == closed[i]);
                    assert(n[i + 1] == closed[i + 1]);
                } else {
                    assert(n[i] == closed.last());
                }
            }
            assert forall|i: int| 0 <= i < n.len() implies spec_action_sound(
                #[trigger] n[i],
                replayable,
            ) by {
                if i < n.len() - 1 {
                    assert(n[i] == closed[i]);
                }
            }
            if closed.len() > 0 {
                assert(n[0] == closed[0]);
            }
        }
    }
}

/// A resend answer tiles the requested range: its actions run in order
/// from the first requested sequence to the last, each starting right
/// after the previous one ends; every replay is of a replayable sequence
/// and every gap fill covers only sequences that cannot be replayed.
pub proof fn law_resend_answer_tiles_range(begin: u64, end: u64, replayable: Seq<u64>)
    requires
        1 <= begin <= end,
    ensures
        ({
            let a = spec_resend_actions(begin, end, replayable);
            &&& a.len() > 0
            &&& spec_action_first(a[0]) == begin
            &&& spec_action_last(a.last()) == end
            &&& spec_tiles_from(a, begin as int, replayable)
        }),
{
    lemma_fold_tiles(begin, end as nat + 1, replayable);
    let f = spec_resend_fold(begin as nat, end as nat + 1, replayable);
    if let Some(g) = f.1 {
        let n = f.0.push(FixResendAction::GapFill { begin: g, end });
        assert forall|i: int| 0 <= i < n.len() - 1 implies spec_action_last(#[trigger] n[i]) + 1
            == spec_action_first(n[i + 1]) by {
            if i < n.len() - 2 {
                assert(n[i] == f.0[i]);
                assert(n[i + 1] == f.0[i + 1]);
            } else {
                assert(n[i] == f.0.last());
            }
        }
        assert forall|i: int| 0 <= i < n.len() implies spec_action_sound(
            #[trigger] n[i],
            replayable,
        ) by {
            if i < n.len() - 1 {
                assert(n[i] == f.0[i]);
            }
        }
        if f.0.len() > 0 {
            assert(n[0] == f.0[0]);
        }
    } else {
        assert(f.0.len() > 0);
    }
}

} // verus!
