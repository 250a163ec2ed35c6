use command_ping::config::{ConfigError, ProbeConfig, MAX_PAYLOAD};
use command_ping::error::PingError;
use command_ping::outcome::{Address, ProbeOutcome, Reply, ReplySource};
use command_ping::probe_loop::{ProbeLoop, Step, ECHO_IDENTIFIER};
use command_ping::resolve::{pick_resolved, plan_resolution, ResolvePlan};
use command_ping::stats::{summarize, PingStatistics, Tally};

fn reply_ms(ms: u64) -> ProbeOutcome {
    ProbeOutcome::Reply(Reply {
        from: ReplySource::ipv4(0x7f00_0001, Some(64)),
        size: 64,
        rtt_us: ms * 1000,
    })
}

/// Drives a loop over the given outcomes, checking each step it asks for,
/// and returns the statistics and the total pause.
fn drive(config: ProbeConfig, outcomes: &[ProbeOutcome]) -> (PingStatistics, u64) {
    let mut run = ProbeLoop::new(config);
    let mut waited: u64 = 0;
    let mut i: usize = 0;
    loop {
        match run.next_step() {
            Step::Send { sequence, wait_ms, timeout_ms } => {
                assert_eq!(sequence as usize, i);
                assert_eq!(timeout_ms, config.timeout_ms);
                assert_eq!(wait_ms, if i == 0 { 0 } else { config.interval_ms });
                waited += wait_ms;
                run.record(&outcomes[i]);
                i += 1;
            }
            Step::Finished => break,
        }
    }
    assert_eq!(i, config.count as usize);
    (run.finish(), waited)
}

#[test]
fn four_replies() {
    let config = ProbeConfig::new(4, 1000, 1000, 56).unwrap();
    let outcomes = vec![reply_ms(10), reply_ms(20), reply_ms(15), reply_ms(25)];
    let (stats, _) = drive(config, &outcomes);
    let expected = PingStatistics {
        sent: 4,
        received: 4,
        lost: 0,
        loss_basis_points: 0,
        min_rtt_us: 10_000,
        max_rtt_us: 25_000,
        avg_rtt_us: 17_500,
    };
    assert_eq!(stats, expected);
    assert_eq!(summarize(&outcomes), expected);
}

#[test]
fn mixed_outcomes() {
    let config = ProbeConfig::new(4, 1000, 1000, 56).unwrap();
    let outcomes = vec![
        reply_ms(10),
        ProbeOutcome::TimedOut,
        reply_ms(12),
        ProbeOutcome::TransportError("send failed".to_string()),
    ];
    let (stats, _) = drive(config, &outcomes);
    let expected = PingStatistics {
        sent: 4,
        received: 2,
        lost: 2,
        loss_basis_points: 5000,
        min_rtt_us: 10_000,
        max_rtt_us: 12_000,
        avg_rtt_us: 11_000,
    };
    assert_eq!(stats, expected);
    assert_eq!(summarize(&outcomes), expected);
}

#[test]
fn literal_address_needs_no_lookup() {
    let a = Address::V4(0xc0a8_0001);
    assert_eq!(plan_resolution(Some(a)), ResolvePlan::Use(a));
    let b = Address::V6(1);
    assert_eq!(plan_resolution(Some(b)), ResolvePlan::Use(b));
    assert_eq!(plan_resolution(None), ResolvePlan::LookUp);
}

#[test]
fn lookup_without_addresses_fails() {
    let r = pick_resolved("nowhere.invalid".to_string(), Ok(vec![]));
    assert!(matches!(r, Err(PingError::InvalidHost(ref h)) if h == "nowhere.invalid"));
}

#[test]
fn lookup_error_names_host_and_cause() {
    let r = pick_resolved("example".to_string(), Err("no such host".to_string()));
    match r {
        Err(PingError::ResolutionFailed { host, cause }) => {
            assert_eq!(host, "example");
            assert_eq!(cause, "no such host");
        }
        other => panic!("unexpected {:?}", other),
    }
}

#[test]
fn lookup_takes_first_address() {
    let r = pick_resolved(
        "example".to_string(),
        Ok(vec![Address::V6(42), Address::V4(7)]),
    );
    assert_eq!(r.unwrap(), Address::V6(42));
}

#[test]
fn pacing_waits_one_interval_less_than_count() {
    let config = ProbeConfig::new(5, 200, 750, 56).unwrap();
    let outcomes = vec![ProbeOutcome::TimedOut; 5];
    let (_, waited) = drive(config, &outcomes);
    assert_eq!(waited, 4 * 750);
    let single = ProbeConfig::new(1, 200, 750, 56).unwrap();
    let (_, waited) = drive(single, &outcomes[..1]);
    assert_eq!(waited, 0);
}

#[test]
fn counts_balance_after_every_probe() {
    let outcomes = vec![
        reply_ms(3),
        ProbeOutcome::TimedOut,
        ProbeOutcome::TransportError("x".to_string()),
        reply_ms(4),
        ProbeOutcome::TimedOut,
    ];
    let mut tally = Tally::new();
    for (k, o) in outcomes.iter().enumerate() {
        tally.record(o);
        assert_eq!(tally.sent() as usize, k + 1);
        assert_eq!(tally.received() + tally.lost(), tally.sent());
    }
    assert_eq!(tally.received(), 2);
    assert_eq!(tally.lost(), 3);
}

#[test]
fn loss_extremes() {
    let all_lost = vec![ProbeOutcome::TimedOut; 3];
    assert_eq!(summarize(&all_lost).loss_basis_points, 10000);
    let none_lost = vec![reply_ms(1); 3];
    assert_eq!(summarize(&none_lost).loss_basis_points, 0);
    let one_of_three = vec![reply_ms(1), reply_ms(1), ProbeOutcome::TimedOut];
    assert_eq!(summarize(&one_of_three).loss_basis_points, 3333);
    assert_eq!(Tally::new().finish().loss_basis_points, 0);
}

#[test]
fn nothing_received_gives_zero_rtts() {
    let stats = summarize(&vec![
        ProbeOutcome::TimedOut,
        ProbeOutcome::TransportError("unreachable".to_string()),
    ]);
    assert_eq!(stats.received, 0);
    assert_eq!(stats.lost, 2);
    assert_eq!((stats.min_rtt_us, stats.max_rtt_us, stats.avg_rtt_us), (0, 0, 0));
    let empty = Tally::new().finish();
    assert_eq!(empty.sent, 0);
    assert_eq!((empty.min_rtt_us, empty.max_rtt_us, empty.avg_rtt_us), (0, 0, 0));
}

#[test]
fn rtts_are_ordered() {
    let stats = summarize(&vec![reply_ms(7), ProbeOutcome::TimedOut, reply_ms(2), reply_ms(9)]);
    assert!(stats.min_rtt_us <= stats.avg_rtt_us && stats.avg_rtt_us <= stats.max_rtt_us);
    assert_eq!(stats.min_rtt_us, 2000);
    assert_eq!(stats.max_rtt_us, 9000);
    assert_eq!(stats.avg_rtt_us, 6000);
}

#[test]
fn mean_rounds_down() {
    let outcomes = vec![
        ProbeOutcome::Reply(Reply { from: ReplySource::V6 { source: 1 }, size: 8, rtt_us: 1 }),
        ProbeOutcome::Reply(Reply { from: ReplySource::V6 { source: 1 }, size: 8, rtt_us: 2 }),
    ];
    assert_eq!(summarize(&outcomes).avg_rtt_us, 1);
}

#[test]
fn largest_rtts_do_not_overflow() {
    let big = ProbeOutcome::Reply(Reply {
        from: ReplySource::V6 { source: 1 },
        size: 8,
        rtt_us: u64::MAX,
    });
    let stats = summarize(&vec![big.clone(), big]);
    assert_eq!(stats.avg_rtt_us, u64::MAX);
    assert_eq!(stats.min_rtt_us, u64::MAX);
}

#[test]
fn config_rejections() {
    assert_eq!(ProbeConfig::new(0, 1000, 1000, 56), Err(ConfigError::ZeroCount));
    assert_eq!(ProbeConfig::new(4, 0, 1000, 56), Err(ConfigError::ZeroTimeout));
    assert_eq!(ProbeConfig::new(4, 1000, 0, 56), Err(ConfigError::ZeroInterval));
    assert_eq!(ProbeConfig::new(4, 1000, 1000, 0), Err(ConfigError::PayloadSize(0)));
    assert_eq!(
        ProbeConfig::new(4, 1000, 1000, MAX_PAYLOAD + 1),
        Err(ConfigError::PayloadSize(1501))
    );
    let c = ProbeConfig::new(u16::MAX, 1, 1, MAX_PAYLOAD).unwrap();
    assert_eq!(c.count, u16::MAX);
}

#[test]
fn payload_is_zero_bytes() {
    let c = ProbeConfig::new(4, 1000, 1000, 56).unwrap();
    let p = c.payload();
    assert_eq!(p.len(), 56);
    assert!(p.iter().all(|b| *b == 0));
}

#[test]
fn missing_ttl_reads_as_zero() {
    assert_eq!(ReplySource::ipv4(9, None), ReplySource::V4 { source: 9, ttl: 0 });
    assert_eq!(ReplySource::ipv4(9, Some(57)), ReplySource::V4 { source: 9, ttl: 57 });
}

#[test]
fn echo_identifier_is_fixed() {
    assert_eq!(ECHO_IDENTIFIER, 123);
}
