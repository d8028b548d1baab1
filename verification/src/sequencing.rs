//! What a session does over a whole exchange with the device: the order
//! of its transactions, proved from the single steps of
//! [`Session::next`].

use vstd::prelude::*;
use crate::bus::Transaction;
use crate::driver::{boot_value, configure_value, enable_value, Phase, Session, Step};
use crate::register::calibration::CalibrationRegister;
use crate::register::status::Status;
use crate::register::who_am_i::WhoAmI;

verus! {

/// What the bus answers: the bytes read, or the transport's error.
pub type Reply<E> = Result<Seq<u8>, E>;

/// The session and the steps that come of handing `replies` to a session
/// one by one, for as long as a transaction is in flight.
pub open spec fn run<E>(session: Session, replies: Seq<Reply<E>>) -> (Session, Seq<Step<E>>)
    decreases replies.len(),
{
    if replies.len() == 0 || session.phase == Phase::Idle {
        (session, Seq::empty())
    } else {
        let (after, step) = session.next(replies[0]);
        let (end, rest) = run(after, replies.skip(1));
        (end, seq![step] + rest)
    }
}

/// Whether a reply to the read of the identity register confirms the
/// device at `session`'s address.
pub open spec fn confirms_identity<E>(session: Session, reply: Reply<E>) -> bool {
    reply matches Ok(data) && WhoAmI::spec_decode(data[0]) == session.address
}

/// Whether a step asks for a write.
pub open spec fn is_write<E>(step: Step<E>) -> bool {
    step matches Step::Transact(Transaction::Write { .. })
}

/// Whether a reply to a read of the status register reports a sample
/// waiting.
pub open spec fn reports_sample<E>(reply: Reply<E>) -> bool {
    reply matches Ok(data) && Status::spec_decode(data[0]).spec_any_available()
}

/// Whether a reply to a read of the status register reports no sample
/// waiting.
pub open spec fn reports_none<E>(reply: Reply<E>) -> bool {
    reply matches Ok(data) && !Status::spec_decode(data[0]).spec_any_available()
}

/// The read of a register of `len` bytes of `session`'s device.
pub open spec fn read_of<E>(session: Session, register: u8, len: u8) -> Step<E> {
    Step::Transact(Transaction::Read { address: session.address, register, len })
}

/// The write of `value` to a register of `session`'s device.
pub open spec fn write_of<E>(session: Session, register: u8, value: u8) -> Step<E> {
    Step::Transact(Transaction::Write { address: session.address, register, value })
}

/// The steps of draining `rounds` stale samples: in each round the read
/// of a humidity sample, the read of a temperature sample and the next
/// read of the status register; after the last round the read of the
/// first calibration register.
pub open spec fn drain_steps<E>(session: Session, rounds: nat) -> Seq<Step<E>> {
    Seq::new(
        3 * rounds + 1,
        |i: int|
            if i == 3 * rounds {
                read_of(session, CalibrationRegister::T0.spec_index(), 4)
            } else if i % 3 == 0 {
                read_of(session, crate::register::h_out::H_OUT, 2)
            } else if i % 3 == 1 {
                read_of(session, crate::register::t_out::T_OUT, 2)
            } else {
                read_of(session, crate::register::status::STATUS, 1)
            },
    )
}

/// Whether `replies` are those of a device that has `rounds` stale samples
/// to give: in each round the status register reports a sample and both
/// reads succeed; then the status register reports none.
pub open spec fn drains_in<E>(replies: Seq<Reply<E>>, rounds: nat) -> bool {
    &&& replies.len() == 3 * rounds + 1
    &&& forall|k: int|
        0 <= k < rounds ==> reports_sample(#[trigger] replies[3 * k]) && replies[3 * k + 1] is Ok
            && replies[3 * k + 2] is Ok
    &&& reports_none(replies[3 * rounds as int])
}

/// The steps from the confirmation of the identity to the first read of
/// the status register, given what control registers 2 and 3 were read
/// as.
pub open spec fn setup_steps<E>(session: Session, ctrl2: u8, ctrl3: u8) -> Seq<Step<E>> {
    seq![
        read_of(session, crate::register::ctrl2::CTRL_REG2, 1),
        write_of(session, crate::register::ctrl2::CTRL_REG2, boot_value(ctrl2)),
        read_of(session, crate::register::ctrl1::CTRL_REG1, 1),
        write_of(session, crate::register::ctrl1::CTRL_REG1, configure_value()),
        read_of(session, crate::register::ctrl3::CTRL_REG3, 1),
        write_of(session, crate::register::ctrl3::CTRL_REG3, enable_value(ctrl3)),
        read_of(session, crate::register::status::STATUS, 1),
    ]
}

/// Whether `replies` are those of a device that confirms its identity and
/// lets the three control registers be read and written, where control
/// registers 2 and 3 read as `ctrl2` and `ctrl3`.
pub open spec fn sets_up<E>(session: Session, replies: Seq<Reply<E>>, ctrl2: u8, ctrl3: u8) -> bool {
    &&& replies.len() == 7
    &&& confirms_identity(session, replies[0])
    &&& replies[1] matches Ok(data) && data[0] == ctrl2
    &&& replies[2] is Ok
    &&& replies[3] is Ok
    &&& replies[4] is Ok
    &&& replies[5] matches Ok(data) && data[0] == ctrl3
    &&& replies[6] is Ok
}

/// One reply is one step: a session with a transaction in flight takes
/// the step of [`Session::next`] and goes on with the other replies.
pub proof fn lemma_run_unfold<E>(session: Session, replies: Seq<Reply<E>>)
    requires
        replies.len() > 0,
        session.phase != Phase::Idle,
    ensures
        run(session, replies).0 == run(session.next(replies[0]).0, replies.skip(1)).0,
        run(session, replies).1 == seq![session.next(replies[0]).1] + run(
            session.next(replies[0]).0,
            replies.skip(1),
        ).1,
{
}

/// A session takes at most one step per reply, and a step that asks for
/// no transaction is the last. Neither the address nor, short of a
/// completed initialization, the calibration changes.
pub proof fn lemma_run_shape<E>(session: Session, replies: Seq<Reply<E>>)
    ensures
        run(session, replies).1.len() <= replies.len(),
        run(session, replies).0.address == session.address,
        forall|i: int|
            0 <= i < run(session, replies).1.len() - 1 ==> #[trigger] run(session, replies).1[i]
                is Transact,
        (forall|i: int|
            0 <= i < run(session, replies).1.len() ==> !(#[trigger] run(session, replies).1[i]
                is Initialized)) ==> run(session, replies).0.calibration == session.calibration,
    decreases replies.len(),
{
    if replies.len() == 0 || session.phase == Phase::Idle {
    } else {
        let (after, step) = session.next(replies[0]);
        let rest = run(after, replies.skip(1)).1;
        let steps = run(session, replies).1;
        lemma_run_shape(after, replies.skip(1));
        assert(steps == seq![step] + rest);
        assert(steps[0] == step);
        assert forall|i: int| 0 <= i < steps.len() - 1 implies #[trigger] steps[i] is Transact by {
            if i == 0 {
                assert(rest.len() > 0);
                assert(after.phase != Phase::Idle);
            } else {
                assert(steps[i] == rest[i - 1]);
            }
        }
        if forall|i: int| 0 <= i < steps.len() ==> !(#[trigger] steps[i] is Initialized) {
            assert(!(steps[0] is Initialized));
            assert forall|i: int| 0 <= i < rest.len() implies !(#[trigger] rest[i]
                is Initialized) by {
                assert(steps[i + 1] == rest[i]);
            }
        }
    }
}

/// Replies handed over in two batches give what they give in one.
pub proof fn lemma_run_concat<E>(session: Session, first: Seq<Reply<E>>, second: Seq<Reply<E>>)
    ensures
        run(session, first + second).0 == run(run(session, first).0, second).0,
        run(session, first + second).1 == run(session, first).1 + run(
            run(session, first).0,
            second,
        ).1,
    decreases first.len(),
{
    if first.len() == 0 {
        assert(first + second =~= second);
        assert(run(session, first).1 + run(session, second).1 =~= run(session, second).1);
    } else if session.phase == Phase::Idle {
        assert(run(session, first).1 + run(session, second).1 =~= Seq::<Step<E>>::empty());
    } else {
        let all = first + second;
        let after = session.next(first[0]).0;
        assert(all[0] == first[0]);
        assert(all.skip(1) =~= first.skip(1) + second);
        lemma_run_concat(after, first.skip(1), second);
        let middle = run(after, first.skip(1)).0;
        assert(seq![session.next(first[0]).1] + (run(after, first.skip(1)).1 + run(middle, second).1)
            =~= (seq![session.next(first[0]).1] + run(after, first.skip(1)).1) + run(
            middle,
            second,
        ).1);
    }
}

/// An initialization checks the identity before it writes anything: it
/// starts with the read of the identity register, and unless the reply
/// to that read confirms the identity, it asks for no further
/// transaction and leaves the calibration as it was. Where it does write,
/// the identity was confirmed, and at least one step came before the
/// write.
pub proof fn lemma_identity_checked_first<E>(session: Session, replies: Seq<Reply<E>>)
    ensures
        session.begin_initialize().pending() == Some(WhoAmI::spec_read(session.address)),
        replies.len() == 0 || !confirms_identity(session, replies[0]) ==> {
            &&& run(session.begin_initialize(), replies).0.calibration == session.calibration
            &&& forall|i: int|
                0 <= i < run(session.begin_initialize(), replies).1.len() ==> !(#[trigger] run(
                    session.begin_initialize(),
                    replies,
                ).1[i] is Transact)
        },
        forall|i: int|
            0 <= i < run(session.begin_initialize(), replies).1.len() && is_write(
                #[trigger] run(session.begin_initialize(), replies).1[i],
            ) ==> i >= 1 && confirms_identity(session, replies[0]),
{
    let start = session.begin_initialize();
    let steps = run(start, replies).1;
    if replies.len() > 0 {
        let (after, step) = start.next(replies[0]);
        let rest = run(after, replies.skip(1)).1;
        assert(steps == seq![step] + rest);
        assert(steps[0] == step);
        assert(!is_write(step));
        if !confirms_identity(session, replies[0]) {
            assert(after.phase == Phase::Idle);
            assert(rest.len() == 0);
            assert(steps.len() == 1);
        }
    }
}

/// After its identity is confirmed, an initialization reboots, then
/// configures, then enables conversion, each by a read and a write of
/// one control register, and then reads the status register for the first
/// time.
pub proof fn lemma_setup_order<E>(
    session: Session,
    replies: Seq<Reply<E>>,
    ctrl2: u8,
    ctrl3: u8,
)
    requires
        sets_up(session, replies, ctrl2, ctrl3),
    ensures
        run(session.begin_initialize(), replies).0 == session.at(Phase::DrainStatus),
        run(session.begin_initialize(), replies).1 == setup_steps::<E>(session, ctrl2, ctrl3),
{
    let s0 = session.begin_initialize();
    let r0 = replies;
    lemma_run_unfold(s0, r0);
    let s1 = s0.next(r0[0]).0;
    let r1 = r0.skip(1);
    lemma_run_unfold(s1, r1);
    let s2 = s1.next(r1[0]).0;
    let r2 = r1.skip(1);
    lemma_run_unfold(s2, r2);
    let s3 = s2.next(r2[0]).0;
    let r3 = r2.skip(1);
    lemma_run_unfold(s3, r3);
    let s4 = s3.next(r3[0]).0;
    let r4 = r3.skip(1);
    lemma_run_unfold(s4, r4);
    let s5 = s4.next(r4[0]).0;
    let r5 = r4.skip(1);
    lemma_run_unfold(s5, r5);
    let s6 = s5.next(r5[0]).0;
    let r6 = r5.skip(1);
    lemma_run_unfold(s6, r6);
    let s7 = s6.next(r6[0]).0;
    assert(r6.skip(1).len() == 0);
    assert(run(s7, r6.skip(1)).1 =~= Seq::<Step<E>>::empty());
    assert(s7 == session.at(Phase::DrainStatus));
    assert(run(s0, r0).1 =~= setup_steps::<E>(session, ctrl2, ctrl3));
}

/// A session that drains reads off exactly as many pairs of stale samples
/// as the device reports, and then goes on to the calibration: where the
/// status register reports a sample `rounds` times and then none, the
/// session reads `rounds` humidity samples and `rounds` temperature
/// samples, in turn, and then the first calibration register.
pub proof fn lemma_drain_rounds<E>(session: Session, replies: Seq<Reply<E>>, rounds: nat)
    requires
        session.phase == Phase::DrainStatus,
        drains_in(replies, rounds),
    ensures
        run(session, replies).0 == session.at(Phase::CalibrateT0),
        run(session, replies).1 == drain_steps::<E>(session, rounds),
    decreases rounds,
{
    if rounds == 0 {
        lemma_run_unfold(session, replies);
        let after = session.next(replies[0]).0;
        assert(replies.skip(1).len() == 0);
        assert(run(after, replies.skip(1)).1 =~= Seq::<Step<E>>::empty());
        assert(run(session, replies).1 =~= drain_steps::<E>(session, rounds));
    } else {
        assert(reports_sample(replies[3 * 0int]));
        let r0 = replies;
        lemma_run_unfold(session, r0);
        let s1 = session.next(r0[0]).0;
        let r1 = r0.skip(1);
        assert(r1[0] == replies[3 * 0int + 1]);
        lemma_run_unfold(s1, r1);
        let s2 = s1.next(r1[0]).0;
        let r2 = r1.skip(1);
        assert(r2[0] == replies[3 * 0int + 2]);
        lemma_run_unfold(s2, r2);
        let s3 = s2.next(r2[0]).0;
        let r3 = r2.skip(1);
        assert(s3 == session);
        let fewer = (rounds - 1) as nat;
        assert(drains_in(r3, fewer)) by {
            assert forall|k: int| 0 <= k < fewer implies reports_sample(#[trigger] r3[3 * k])
                && r3[3 * k + 1] is Ok && r3[3 * k + 2] is Ok by {
                assert(r3[3 * k] == replies[3 * (k + 1)]);
                assert(r3[3 * k + 1] == replies[3 * (k + 1) + 1]);
                assert(r3[3 * k + 2] == replies[3 * (k + 1) + 2]);
            }
            assert(r3[3 * fewer as int] == replies[3 * rounds as int]);
        }
        lemma_drain_rounds(session, r3, fewer);
        let head: Seq<Step<E>> = seq![
            read_of(session, crate::register::h_out::H_OUT, 2),
            read_of(session, crate::register::t_out::T_OUT, 2),
            read_of(session, crate::register::status::STATUS, 1),
        ];
        assert(run(session, replies).1 =~= head + drain_steps::<E>(session, fewer));
        assert(head + drain_steps::<E>(session, fewer) =~= drain_steps::<E>(session, rounds));
    }
}

/// An initialization of a device that confirms its identity, lets itself
/// be set up and has `rounds` stale samples to give takes the steps of
/// the setup, then those of draining `rounds` samples, and stands at the
/// read of the first calibration register.
pub proof fn lemma_initialize_drains<E>(
    session: Session,
    setup: Seq<Reply<E>>,
    drain: Seq<Reply<E>>,
    ctrl2: u8,
    ctrl3: u8,
    rounds: nat,
)
    requires
        sets_up(session, setup, ctrl2, ctrl3),
        drains_in(drain, rounds),
    ensures
        run(session.begin_initialize(), setup + drain).0 == session.at(Phase::CalibrateT0),
        run(session.begin_initialize(), setup + drain).1 == setup_steps::<E>(session, ctrl2, ctrl3) + drain_steps::<E>(session, rounds),
{
    lemma_setup_order(session, setup, ctrl2, ctrl3);
    lemma_drain_rounds(session.at(Phase::DrainStatus), drain, rounds);
    lemma_run_concat(session.begin_initialize(), setup, drain);
    assert(drain_steps::<E>(session.at(Phase::DrainStatus), rounds) =~= drain_steps::<E>(
        session,
        rounds,
    ));
}

} // verus!
