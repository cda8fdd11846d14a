use ennesults::{
    effective_period, MessageThread, MessageThreadContext, MessageThreadMessage,
    MessageThreadShutdownError, PeriodicSource, Queue, Settings,
};

const T0: u64 = 1_000_000;

fn settings_with_interval(interval: u32) -> Settings {
    let mut s = Settings::default();
    s.message_queue_interval = interval;
    s
}

fn context_with(queue: &[&str], settings: &Settings) -> MessageThreadContext {
    let mut ctx = MessageThreadContext::new(T0, settings, 7);
    for m in queue {
        ctx.message_queue.enqueue(m.to_string());
    }
    ctx
}

#[test]
fn basic_flush_sends_once_and_empties_queue() {
    let settings = settings_with_interval(5);
    let mut ctx = context_with(&["a"], &settings);
    assert_eq!(ctx.last_message_time, T0);
    let sent = ctx.take_message_to_send(T0 + 6, &settings);
    assert_eq!(sent, Some("a".to_string()));
    assert!(ctx.message_queue.is_empty());
    assert_eq!(ctx.last_message_time, T0 + 6);
    assert_eq!(ctx.take_message_to_send(T0 + 20, &settings), None);
}

#[test]
fn starvation_under_rate_limit_spaces_sends() {
    let settings = settings_with_interval(10);
    let mut ctx = context_with(&["a", "b"], &settings);
    assert_eq!(ctx.take_message_to_send(T0 + 1, &settings), None);
    assert_eq!(ctx.take_message_to_send(T0 + 11, &settings), Some("a".to_string()));
    assert_eq!(ctx.message_queue.len(), 1);
    assert_eq!(ctx.take_message_to_send(T0 + 21, &settings), Some("b".to_string()));
    assert!(ctx.message_queue.is_empty());
}

#[test]
fn send_at_exactly_the_interval_is_allowed() {
    let settings = settings_with_interval(5);
    let mut ctx = context_with(&["a"], &settings);
    assert_eq!(ctx.take_message_to_send(T0 + 4, &settings), None);
    assert_eq!(ctx.take_message_to_send(T0 + 5, &settings), Some("a".to_string()));
}

#[test]
fn clock_going_back_sends_nothing() {
    let settings = settings_with_interval(0);
    let mut ctx = context_with(&["a"], &settings);
    assert_eq!(ctx.take_message_to_send(T0 - 1, &settings), None);
    assert_eq!(ctx.last_message_time, T0);
}

#[test]
fn rate_limit_holds_over_many_ticks() {
    let settings = settings_with_interval(3);
    let mut ctx = context_with(&[], &settings);
    let mut sends = Vec::new();
    for t in 0..100u64 {
        ctx.handle_message(Some(MessageThreadMessage::QueueMessage(format!("m{}", t))));
        if let Some(m) = ctx.take_message_to_send(T0 + t, &settings) {
            sends.push((T0 + t, m));
        }
    }
    assert!(!sends.is_empty());
    assert!(sends[0].0 >= T0 + 3);
    for w in sends.windows(2) {
        assert!(w[1].0 - w[0].0 >= 3);
    }
    for (k, (_, m)) in sends.iter().enumerate() {
        assert_eq!(m, &format!("m{}", k));
    }
}

#[test]
fn jitter_stays_within_bounds_with_fixed_seed() {
    let mut settings = Settings::default();
    settings.enable_insults = true;
    settings.minimum_time_between_insults = 60;
    settings.maximum_time_between_insults = 120;
    let mut ctx = MessageThreadContext::new(T0, &settings, 42);
    let mut firings = vec![T0];
    let mut now = T0;
    ctx.fire(PeriodicSource::Insult, now, Some("insult".to_string()), &settings);
    while firings.len() < 101 {
        now = ctx.next_insult_message_time_stamp;
        firings.push(now);
        ctx.fire(PeriodicSource::Insult, now, Some("insult".to_string()), &settings);
    }
    let mut seen_min = u64::MAX;
    let mut seen_max = 0;
    for w in firings.windows(2) {
        let gap = w[1] - w[0];
        assert!((60..=120).contains(&gap), "gap {}", gap);
        seen_min = seen_min.min(gap);
        seen_max = seen_max.max(gap);
    }
    assert!(seen_min < seen_max);
    assert_eq!(ctx.message_queue.len(), 101);
}

#[test]
fn ticking_source_fires_one_second_after_due() {
    let mut settings = Settings::default();
    settings.enable_insults = true;
    settings.minimum_time_between_insults = 60;
    settings.maximum_time_between_insults = 120;
    let mut ctx = MessageThreadContext::new(T0, &settings, 42);
    let mut firings = Vec::new();
    let mut now = T0;
    while firings.len() < 50 {
        now += 1;
        if ctx.is_due(PeriodicSource::Insult, now, &settings) {
            assert_eq!(now, ctx.next_insult_message_time_stamp + 1);
            firings.push(now);
            ctx.fire(PeriodicSource::Insult, now, None, &settings);
        }
    }
    for w in firings.windows(2) {
        assert!((61..=121).contains(&(w[1] - w[0])));
    }
}

#[test]
fn same_seed_draws_same_periods() {
    let mut settings = Settings::default();
    settings.minimum_time_between_insults = 1;
    settings.maximum_time_between_insults = 1_000_000;
    let mut a = MessageThreadContext::new(T0, &settings, 5);
    let mut b = MessageThreadContext::new(T0, &settings, 5);
    let mut differs_from_min = false;
    for k in 0..20 {
        a.fire(PeriodicSource::Insult, T0 + k, None, &settings);
        b.fire(PeriodicSource::Insult, T0 + k, None, &settings);
        assert_eq!(a.next_insult_message_time_stamp, b.next_insult_message_time_stamp);
        differs_from_min |= a.next_insult_message_time_stamp != T0 + k + 1;
    }
    assert!(differs_from_min);
}

#[test]
fn periodic_miss_still_resets_timer() {
    let mut settings = Settings::default();
    settings.enable_announcements = true;
    settings.minimum_time_between_announcements = 30;
    settings.maximum_time_between_announcements = 40;
    let mut ctx = MessageThreadContext::new(T0, &settings, 1);
    let mut calls = Vec::new();
    for t in 1..1000u64 {
        let now = T0 + t;
        if ctx.is_due(PeriodicSource::Announcement, now, &settings) {
            calls.push(now);
            ctx.fire(PeriodicSource::Announcement, now, None, &settings);
        }
    }
    assert!(calls.len() > 5);
    assert!(calls[0] > T0 + 30);
    for w in calls.windows(2) {
        assert!(w[1] - w[0] > 30);
    }
    assert!(ctx.message_queue.is_empty());
}

#[test]
fn disabled_source_is_never_due() {
    let settings = Settings::default();
    let ctx = MessageThreadContext::new(T0, &settings, 1);
    assert!(!ctx.is_due(PeriodicSource::Insult, T0 + 10_000, &settings));
    assert!(!ctx.is_due(PeriodicSource::Announcement, T0 + 10_000, &settings));
}

#[test]
fn due_only_strictly_after_due_time() {
    let mut settings = Settings::default();
    settings.enable_insults = true;
    settings.minimum_time_between_insults = 10;
    let ctx = MessageThreadContext::new(T0, &settings, 1);
    assert_eq!(ctx.next_insult_message_time_stamp, T0 + 10);
    assert_eq!(ctx.next_announcement_message_time_stamp, T0 + 300);
    assert!(!ctx.is_due(PeriodicSource::Insult, T0 + 10, &settings));
    assert!(ctx.is_due(PeriodicSource::Insult, T0 + 11, &settings));
}

#[test]
fn clamp_uses_maximum_exactly() {
    assert_eq!(effective_period(120, 60), (60, 60));
    assert_eq!(effective_period(60, 120), (60, 120));
    assert_eq!(effective_period(7, 7), (7, 7));
    let mut settings = Settings::default();
    settings.minimum_time_between_insults = 500;
    settings.maximum_time_between_insults = 90;
    let mut ctx = MessageThreadContext::new(T0, &settings, 3);
    for k in 0..10 {
        ctx.fire(PeriodicSource::Insult, T0 + k, None, &settings);
        assert_eq!(ctx.next_insult_message_time_stamp, T0 + k + 90);
    }
}

#[test]
fn fire_leaves_other_source_and_appends_content() {
    let settings = Settings::default();
    let mut ctx = MessageThreadContext::new(T0, &settings, 3);
    ctx.message_queue.enqueue("x".to_string());
    ctx.fire(PeriodicSource::Insult, T0 + 1, Some("y".to_string()), &settings);
    assert_eq!(ctx.next_announcement_message_time_stamp, T0 + 300);
    assert_eq!(ctx.next_insult_message_time_stamp, T0 + 301);
    assert_eq!(ctx.message_queue.dequeue(), Some("x".to_string()));
    assert_eq!(ctx.message_queue.dequeue(), Some("y".to_string()));
}

#[test]
fn reschedule_sets_exact_due_time() {
    let settings = Settings::default();
    let mut ctx = MessageThreadContext::new(T0, &settings, 3);
    ctx.reschedule(PeriodicSource::Announcement, T0 + 5, None, 17);
    assert_eq!(ctx.next_announcement_message_time_stamp, T0 + 22);
    assert_eq!(ctx.next_insult_message_time_stamp, T0 + 300);
    assert!(ctx.message_queue.is_empty());
}

#[test]
fn control_messages_queue_or_stop() {
    let settings = Settings::default();
    let mut ctx = MessageThreadContext::new(T0, &settings, 3);
    assert!(ctx.handle_message(None));
    assert!(ctx.handle_message(Some(MessageThreadMessage::QueueMessage("raid".to_string()))));
    assert_eq!(ctx.message_queue.len(), 1);
    assert!(!ctx.handle_message(Some(MessageThreadMessage::ThreadShutdown)));
    assert_eq!(ctx.message_queue.len(), 1);
}

#[test]
fn tick_order_is_control_then_a_then_b() {
    let mut settings = settings_with_interval(0);
    settings.enable_insults = true;
    settings.enable_announcements = true;
    settings.minimum_time_between_insults = 0;
    settings.minimum_time_between_announcements = 0;
    let mut ctx = MessageThreadContext::new(T0, &settings, 3);
    let now = T0 + 1;
    ctx.handle_message(Some(MessageThreadMessage::QueueMessage("external".to_string())));
    assert!(ctx.is_due(PeriodicSource::Insult, now, &settings));
    ctx.fire(PeriodicSource::Insult, now, Some("insult".to_string()), &settings);
    assert!(ctx.is_due(PeriodicSource::Announcement, now, &settings));
    ctx.fire(PeriodicSource::Announcement, now, Some("announcement".to_string()), &settings);
    assert_eq!(ctx.take_message_to_send(now, &settings), Some("external".to_string()));
    assert_eq!(ctx.take_message_to_send(now, &settings), Some("insult".to_string()));
    assert_eq!(ctx.take_message_to_send(now, &settings), Some("announcement".to_string()));
    assert_eq!(ctx.take_message_to_send(now, &settings), None);
}

#[test]
fn shutdown_drops_queue_and_restart_is_empty() {
    let settings = Settings::default();
    let mut ctx = context_with(&["a", "b"], &settings);
    assert_eq!(ctx.message_queue.len(), 2);
    assert!(!ctx.handle_message(Some(MessageThreadMessage::ThreadShutdown)));
    drop(ctx);
    let fresh = MessageThreadContext::new(T0 + 50, &settings, 9);
    assert!(fresh.message_queue.is_empty());
    assert_eq!(fresh.message_queue.len(), 0);
}

#[test]
fn fifo_order_with_interleaving() {
    let mut q = Queue::new();
    assert_eq!(q.dequeue(), None::<u32>);
    q.enqueue(1);
    q.enqueue(2);
    assert_eq!(q.dequeue(), Some(1));
    q.enqueue(3);
    assert_eq!(q.len(), 2);
    assert_eq!(q.dequeue(), Some(2));
    assert_eq!(q.dequeue(), Some(3));
    assert_eq!(q.dequeue(), None);
    assert!(q.is_empty());
}

fn running_thread(
    rt: &tokio::runtime::Runtime,
) -> (MessageThread, tokio::sync::mpsc::Receiver<MessageThreadMessage>) {
    let (tx, rx) = tokio::sync::mpsc::channel(100);
    let handle = rt.spawn(async {
        loop {
            tokio::time::sleep(std::time::Duration::from_millis(10)).await;
        }
    });
    (MessageThread::Running { handle, sender: tx }, rx)
}

#[test]
fn shutdown_twice_is_ok_then_not_running() {
    let rt = tokio::runtime::Builder::new_multi_thread().enable_time().build().unwrap();
    let (mut thread, mut rx) = running_thread(&rt);
    assert!(thread.is_running_now());
    assert_eq!(thread.shutdown(), Ok(()));
    assert!(!thread.is_running_now());
    assert_eq!(thread.shutdown(), Err(MessageThreadShutdownError::ThreadNotRunning));
    assert!(matches!(rx.try_recv(), Ok(MessageThreadMessage::ThreadShutdown)));
}

#[test]
fn shutdown_on_stopped_handle_reports_not_running() {
    let mut thread = MessageThread::default();
    assert_eq!(thread.shutdown(), Err(MessageThreadShutdownError::ThreadNotRunning));
}

#[test]
fn queue_message_reaches_running_thread_only() {
    let rt = tokio::runtime::Builder::new_multi_thread().enable_time().build().unwrap();
    let (thread, mut rx) = running_thread(&rt);
    thread.queue_message("hello".to_string());
    match rx.try_recv() {
        Ok(MessageThreadMessage::QueueMessage(m)) => assert_eq!(m, "hello"),
        other => panic!("unexpected {:?}", other),
    }
    MessageThread::Stopped.queue_message("dropped".to_string());
}

#[test]
fn shutdown_cancels_the_task() {
    let rt = tokio::runtime::Builder::new_multi_thread().enable_time().build().unwrap();
    let (tx, _rx) = tokio::sync::mpsc::channel::<MessageThreadMessage>(100);
    let (alive_tx, mut alive_rx) = tokio::sync::mpsc::channel::<()>(1);
    let handle = rt.spawn(async move {
        let _keep = alive_tx;
        loop {
            tokio::time::sleep(std::time::Duration::from_millis(10)).await;
        }
    });
    let mut thread = MessageThread::Running { handle, sender: tx };
    assert_eq!(thread.shutdown(), Ok(()));
    let ended = rt.block_on(async {
        tokio::time::timeout(std::time::Duration::from_secs(5), alive_rx.recv()).await
    });
    assert!(matches!(ended, Ok(None)));
}
