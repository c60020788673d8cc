use xtra::context::DispatchContext;
use xtra::entry::{EntryKind, MailboxEntry, Verdict};
use xtra::lifecycle::ScriptedEntry;
use xtra::manager::{run_scripted, ActorManager, LoopCommand, Phase};

fn msg(requests_stop: bool) -> ScriptedEntry {
    ScriptedEntry { kind: EntryKind::Message, requests_stop }
}

fn late(requests_stop: bool) -> ScriptedEntry {
    ScriptedEntry { kind: EntryKind::LateNotification, requests_stop }
}

fn last_handle(policy_stop: bool) -> ScriptedEntry {
    ScriptedEntry { kind: EntryKind::LastHandle, requests_stop: policy_stop }
}

#[test]
fn three_messages_delivered_in_enqueue_order_then_parked() {
    let (_sender, mut mgr) = ActorManager::<u8, u8>::start(7);
    let entries = vec![msg(false), msg(false), msg(false)];
    let report = run_scripted(&mut mgr, false, &entries, false);
    assert_eq!(report.dispatched, vec![0, 1, 2]);
    assert_eq!(report.processed, 3);
    assert!(!report.finished);
    assert!(!report.hook_fired);
    // the manager keeps awaiting further input
    assert_eq!(mgr.current_phase(), Phase::MainLoop);
    assert_eq!(mgr.actor, 7);
}

#[test]
fn last_handle_with_empty_mailbox_stops_and_fires_hook() {
    let (_sender, mut mgr) = ActorManager::<u8, u8>::start(0);
    let entries = vec![last_handle(true)];
    let report = run_scripted(&mut mgr, false, &entries, false);
    assert_eq!(report.dispatched, Vec::<usize>::new());
    assert_eq!(report.processed, 1);
    assert!(report.finished);
    assert!(report.hook_fired);
    assert_eq!(mgr.current_phase(), Phase::Terminated);
}

#[test]
fn stop_in_start_hook_dispatches_nothing() {
    let (_sender, mut mgr) = ActorManager::<u8, u8>::start(0);
    // entries were already enqueued before the run began; none may be processed
    let entries = vec![msg(false), late(false), last_handle(true)];
    let report = run_scripted(&mut mgr, true, &entries, false);
    assert_eq!(report.dispatched, Vec::<usize>::new());
    assert_eq!(report.processed, 0);
    assert!(report.finished);
    assert!(report.hook_fired);
}

#[test]
fn drain_delivers_late_notifications_already_enqueued() {
    let (_sender, mut mgr) = ActorManager::<u8, u8>::start(0);
    let entries = vec![msg(true), late(false), late(false)];
    let report = run_scripted(&mut mgr, false, &entries, false);
    assert_eq!(report.dispatched, vec![0, 1, 2]);
    assert_eq!(report.processed, 3);
    assert!(report.finished);
    assert!(report.hook_fired);
}

#[test]
fn stop_requested_while_draining_discards_the_rest() {
    let (_sender, mut mgr) = ActorManager::<u8, u8>::start(0);
    let entries = vec![msg(true), late(false), late(true), late(false), late(false)];
    let report = run_scripted(&mut mgr, false, &entries, false);
    // entry 2 is still dispatched, but nothing behind it is delivered
    assert_eq!(report.dispatched, vec![0, 1, 2]);
    assert_eq!(report.processed, 3);
    assert!(report.finished);
}

#[test]
fn last_handle_is_a_no_op_while_draining() {
    let (_sender, mut mgr) = ActorManager::<u8, u8>::start(0);
    let entries = vec![msg(true), last_handle(true), late(false)];
    let report = run_scripted(&mut mgr, false, &entries, false);
    assert_eq!(report.dispatched, vec![0, 2]);
    assert_eq!(report.processed, 3);
    assert!(report.finished);
}

#[test]
fn last_handle_with_keep_running_policy_continues() {
    let (_sender, mut mgr) = ActorManager::<u8, u8>::start(0);
    let entries = vec![last_handle(false), msg(false)];
    let report = run_scripted(&mut mgr, false, &entries, false);
    assert_eq!(report.dispatched, vec![1]);
    assert_eq!(report.processed, 2);
    assert!(!report.finished);
    assert_eq!(mgr.current_phase(), Phase::MainLoop);
}

#[test]
fn mailbox_disconnection_terminates_the_run() {
    let (_sender, mut mgr) = ActorManager::<u8, u8>::start(0);
    let entries = vec![msg(false)];
    let report = run_scripted(&mut mgr, false, &entries, true);
    assert_eq!(report.dispatched, vec![0]);
    assert_eq!(report.processed, 1);
    assert!(report.finished);
    assert!(report.hook_fired);
    assert_eq!(mgr.current_phase(), Phase::Terminated);
}

#[test]
fn stop_hook_is_accounted_exactly_once() {
    let (_sender, mut mgr) = ActorManager::<u8, u8>::start(0);
    assert!(mgr.finalize());
    assert!(!mgr.finalize());
    assert!(!mgr.finalize());
}

#[test]
fn run_that_finishes_does_not_fire_hook_twice() {
    let (_sender, mut mgr) = ActorManager::<u8, u8>::start(0);
    let entries = vec![msg(true)];
    let report = run_scripted(&mut mgr, false, &entries, false);
    assert!(report.finished);
    assert!(report.hook_fired);
    // a later teardown of the same manager must not fire the hook again
    assert!(!mgr.finalize());
}

#[test]
fn dispatch_without_stop_request_continues() {
    let mut ctx = DispatchContext::new();
    assert!(ctx.check_running());
    ctx.begin_dispatch();
    assert_eq!(ctx.end_dispatch(), Verdict::Continue);
    assert!(ctx.check_running());
}

#[test]
fn stop_during_running_dispatch_enters_drain_phase() {
    let mut ctx = DispatchContext::new();
    ctx.begin_dispatch();
    ctx.stop();
    assert_eq!(ctx.end_dispatch(), Verdict::EnterDrainPhase);
    assert!(!ctx.check_running());
}

#[test]
fn stop_during_drain_dispatch_exits_immediately() {
    let mut ctx = DispatchContext::new();
    ctx.begin_dispatch();
    ctx.stop();
    assert_eq!(ctx.end_dispatch(), Verdict::EnterDrainPhase);
    // a later dispatch begins with the running flag already cleared
    ctx.begin_dispatch();
    assert_eq!(ctx.end_dispatch(), Verdict::Continue);
    ctx.begin_dispatch();
    ctx.stop();
    assert_eq!(ctx.end_dispatch(), Verdict::ExitImmediately);
}

#[test]
fn running_flag_is_one_way() {
    let mut ctx = DispatchContext::new();
    ctx.stop();
    assert!(!ctx.check_running());
    ctx.begin_dispatch();
    assert!(!ctx.check_running());
    let _ = ctx.handle_last_handle(false);
    assert!(!ctx.check_running());
}

#[test]
fn last_handle_verdicts_follow_the_policy() {
    let mut ctx = DispatchContext::new();
    assert_eq!(ctx.handle_last_handle(false), Verdict::Continue);
    assert!(ctx.check_running());
    assert_eq!(ctx.handle_last_handle(true), Verdict::EnterDrainPhase);
    assert!(!ctx.check_running());
    // with the stop already decided, another last-handle entry is a no-op
    assert_eq!(ctx.handle_last_handle(true), Verdict::Continue);
}

#[test]
fn manager_state_machine_transitions() {
    let (_sender, mut mgr) = ActorManager::<u8, u8>::start(0);
    assert_eq!(mgr.current_phase(), Phase::Starting);
    assert_eq!(mgr.after_start(), LoopCommand::AwaitEntry);
    assert_eq!(mgr.current_phase(), Phase::MainLoop);
    assert_eq!(mgr.on_verdict(Verdict::Continue), LoopCommand::AwaitEntry);
    assert_eq!(mgr.on_verdict(Verdict::EnterDrainPhase), LoopCommand::PollEntry);
    assert_eq!(mgr.current_phase(), Phase::Draining);
    assert_eq!(mgr.on_verdict(Verdict::Continue), LoopCommand::PollEntry);
    assert_eq!(mgr.on_verdict(Verdict::EnterDrainPhase), LoopCommand::PollEntry);
    assert_eq!(mgr.current_phase(), Phase::Draining);
    assert_eq!(mgr.on_mailbox_empty(), LoopCommand::Finish);
    assert_eq!(mgr.current_phase(), Phase::Terminated);
}

#[test]
fn stop_requested_in_start_hook_finishes_at_once() {
    let (_sender, mut mgr) = ActorManager::<u8, u8>::start(0);
    mgr.ctx.stop();
    assert_eq!(mgr.after_start(), LoopCommand::Finish);
    assert_eq!(mgr.current_phase(), Phase::Terminated);
}

#[test]
fn exit_immediately_terminates_from_the_main_loop() {
    let (_sender, mut mgr) = ActorManager::<u8, u8>::start(0);
    assert_eq!(mgr.after_start(), LoopCommand::AwaitEntry);
    assert_eq!(mgr.on_verdict(Verdict::ExitImmediately), LoopCommand::Finish);
    assert_eq!(mgr.current_phase(), Phase::Terminated);
}

#[test]
fn disconnected_mailbox_switches_to_the_drain_poll() {
    let (_sender, mut mgr) = ActorManager::<u8, u8>::start(0);
    assert_eq!(mgr.after_start(), LoopCommand::AwaitEntry);
    assert_eq!(mgr.on_mailbox_closed(), LoopCommand::PollEntry);
    assert_eq!(mgr.current_phase(), Phase::Draining);
    assert_eq!(mgr.on_mailbox_empty(), LoopCommand::Finish);
}

#[test]
fn mailbox_carries_entries_from_sender_to_manager() {
    let (sender, mut mgr) = ActorManager::<u8, u32>::start(0);
    sender
        .unbounded_send(MailboxEntry::Message(42))
        .expect("the receiving end is alive");
    sender
        .unbounded_send(MailboxEntry::LateNotification(43))
        .expect("the receiving end is alive");
    sender
        .unbounded_send(MailboxEntry::LastHandle)
        .expect("the receiving end is alive");
    match mgr.mailbox.try_next() {
        Ok(Some(MailboxEntry::Message(v))) => assert_eq!(v, 42),
        _ => panic!("expected the first message back"),
    }
    match mgr.mailbox.try_next() {
        Ok(Some(MailboxEntry::LateNotification(v))) => assert_eq!(v, 43),
        _ => panic!("expected the late notification next"),
    }
    assert!(matches!(mgr.mailbox.try_next(), Ok(Some(MailboxEntry::LastHandle))));
    // nothing else was sent: the poll finds the mailbox empty
    assert!(mgr.mailbox.try_next().is_err());
}
