use callback_relay::envelope::{RelayError, Reply};
use callback_relay::relay::RelayChannel;

#[test]
fn replies_reach_their_own_request() {
    let mut c = RelayChannel::new();
    let id0 = c.submit(vec![1]).unwrap();
    let id1 = c.submit(vec![2]).unwrap();
    assert_eq!(id0, 0);
    assert_eq!(id1, 1);
    assert_eq!(c.reply_of(id0), None);
    assert_eq!(c.reply_of(id1), None);

    let first = c.take_next();
    assert_eq!(first.id, 0);
    assert_eq!(first.args, vec![1]);
    c.deliver(first.id, Reply::Value { values: vec![10] });

    let second = c.take_next();
    assert_eq!(second.id, 1);
    c.deliver(second.id, Reply::Value { values: vec![20] });

    assert_eq!(c.reply_of(0), Some(&Reply::Value { values: vec![10] }));
    assert_eq!(c.reply_of(1), Some(&Reply::Value { values: vec![20] }));
}

#[test]
fn teardown_fails_every_unserviced_request() {
    let mut c = RelayChannel::new();
    for i in 0..5 {
        c.submit(vec![i]).unwrap();
    }
    // the dispatcher never runs: after teardown no request may hang forever
    c.close();
    for id in 0..5u64 {
        assert_eq!(c.reply_of(id), Some(&Reply::Failure { error: RelayError::ChannelClosed }));
    }
    // a late request is rejected, not crashed
    assert_eq!(c.submit(vec![9]), Err(RelayError::ChannelClosed));
    assert!(!c.channel_open());
}

#[test]
fn teardown_keeps_already_serviced_replies() {
    let mut c = RelayChannel::new();
    c.submit(vec![1]).unwrap();
    c.submit(vec![2]).unwrap();
    let req = c.take_next();
    c.deliver(req.id, Reply::Value { values: vec![11] });
    c.close();
    assert_eq!(c.reply_of(0), Some(&Reply::Value { values: vec![11] }));
    assert_eq!(c.reply_of(1), Some(&Reply::Failure { error: RelayError::ChannelClosed }));
}

#[test]
fn interleaved_submissions_are_serviced_exactly_once() {
    // envelopes from 64 simulated workers, interleaved arbitrarily
    let mut c = RelayChannel::new();
    let mut ids = Vec::new();
    for w in 0..64i64 {
        ids.push(c.submit(vec![w]).unwrap());
    }
    // every submission got a fresh, distinct identifier
    for (k, id) in ids.iter().enumerate() {
        assert_eq!(*id, k as u64);
    }
    assert_eq!(c.pending_count(), 64);
    assert_eq!(c.issued_count(), 64);

    let mut seen = vec![false; 64];
    while c.pending_count() > 0 {
        let req = c.take_next();
        // serviced at most once
        assert!(!seen[req.id as usize]);
        seen[req.id as usize] = true;
        // and not corrupted
        assert_eq!(req.args, vec![req.id as i64]);
        c.deliver(req.id, Reply::Value { values: vec![req.id as i64 * 2] });
    }
    // none lost
    assert!(seen.iter().all(|s| *s));
    assert!(c.all_serviced());
    for id in 0..64u64 {
        assert_eq!(c.reply_of(id), Some(&Reply::Value { values: vec![id as i64 * 2] }));
    }
}

#[test]
fn smaller_worker_counts_round_trip_too() {
    for t in [2usize, 8] {
        let mut c = RelayChannel::new();
        for w in 0..t {
            c.submit(vec![w as i64]).unwrap();
        }
        while c.pending_count() > 0 {
            let req = c.take_next();
            c.deliver(req.id, Reply::Value { values: vec![req.args[0] + 100] });
        }
        for id in 0..t as u64 {
            assert_eq!(c.reply_of(id), Some(&Reply::Value { values: vec![id as i64 + 100] }));
        }
    }
}
