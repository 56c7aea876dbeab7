use throughput::config::{select_source, ConfigError, SourceKind};
use throughput::sampler::{Action, Config, ReadReply, Sampler};
use throughput::stats::Rate;

fn config(buffer_size: usize, iterations: usize, passthrough: bool) -> Config {
    Config { buffer_size, iterations, passthrough }
}

/// Feeds `reads` (a count of bytes, or `None` for a failed read) and clock
/// readings to a sampler, the way a driver would: returns the reports made and
/// the bytes forwarded.
fn drive(sampler: &mut Sampler, reads: &[Option<&[u8]>], clock: &[u128]) -> (Vec<String>, Vec<u8>) {
    let mut reports = Vec::new();
    let mut forwarded = Vec::new();
    let mut next_read = 0;
    let mut next_tick = 0;
    loop {
        match sampler.next_action() {
            Action::Read => {
                let read = reads[next_read];
                next_read += 1;
                match read {
                    Some(bytes) => {
                        if sampler.on_data(bytes.len()) == ReadReply::Forward {
                            forwarded.extend_from_slice(bytes);
                        }
                    }
                    None => assert_eq!(sampler.on_read_error(), ReadReply::LogError),
                }
            }
            Action::CheckTime => {
                let now = clock[next_tick];
                next_tick += 1;
                if let Some(report) = sampler.on_tick(now) {
                    assert_eq!(report.to_error_channel, sampler.config.passthrough);
                    reports.push(String::from_utf8(report.text).unwrap());
                }
            }
            Action::Stop => return (reports, forwarded),
        }
    }
}

#[test]
fn short_stream_gets_one_final_report() {
    let data = vec![7u8; 5000];
    let mut sampler = Sampler::new(config(4096, 1, false));
    let reads: [Option<&[u8]>; 3] = [Some(&data[..4096]), Some(&data[4096..]), Some(&[])];
    let (reports, forwarded) = drive(&mut sampler, &reads, &[100, 200, 500_000_000]);
    assert_eq!(reports.len(), 1);
    assert_eq!(sampler.stats.total_measures, 1);
    assert_eq!(sampler.stats.total_bytes, 5000);
    assert!(reports[0].starts_with("Data Transferred:       4.883 KB (1 cycles)"));
    assert!(forwarded.is_empty());
    assert_eq!(sampler.next_action(), Action::Stop);
}

#[test]
fn failed_read_is_logged_and_skipped() {
    let mut sampler = Sampler::new(config(4096, 3, false));
    assert_eq!(sampler.next_action(), Action::Read);
    assert_eq!(sampler.on_data(100), ReadReply::Continue);
    let before = sampler.stats;
    assert_eq!(sampler.on_read_error(), ReadReply::LogError);
    assert_eq!(sampler.stats, before);
    assert_eq!(sampler.next_action(), Action::Read);
    assert_eq!(sampler.on_data(50), ReadReply::Continue);
    assert_eq!(sampler.stats.total_bytes, 150);
    assert_eq!(sampler.stats.last_interval_bytes, 150);
    assert_eq!(sampler.next_action(), Action::CheckTime);
}

#[test]
fn total_bytes_is_the_sum_of_reads() {
    let chunks: Vec<Vec<u8>> = vec![vec![1; 10], vec![2; 4096], vec![3; 1], vec![4; 333]];
    let mut reads: Vec<Option<&[u8]>> = chunks.iter().map(|c| Some(c.as_slice())).collect();
    reads.insert(2, None);
    reads.push(Some(&[]));
    let mut sampler = Sampler::new(config(4096, 2, false));
    let clock = [10, 1_500_000_000, 100];
    let (reports, _) = drive(&mut sampler, &reads, &clock);
    assert_eq!(sampler.stats.total_bytes, 10 + 4096 + 1 + 333);
    assert_eq!(reports.len(), 2);
}

#[test]
fn end_of_stream_reports_even_without_time() {
    let mut sampler = Sampler::new(config(16, 4, false));
    assert_eq!(sampler.on_data(16), ReadReply::Continue);
    assert_eq!(sampler.on_data(0), ReadReply::EndOfStream);
    assert_eq!(sampler.next_action(), Action::CheckTime);
    let report = sampler.on_tick(1).expect("a final report");
    assert!(report.text.starts_with(b"Data Transferred:       16.000 Bytes (1 cycles)"));
    assert_eq!(sampler.next_action(), Action::Stop);
    assert_eq!(sampler.stats.total_measures, 1);
}

#[test]
fn no_report_before_a_second_passes() {
    let mut sampler = Sampler::new(config(16, 1, false));
    assert_eq!(sampler.on_data(16), ReadReply::Continue);
    assert!(sampler.on_tick(999_999_999).is_none());
    assert_eq!(sampler.next_action(), Action::Read);
    assert_eq!(sampler.stats.last_interval_bytes, 16);
    assert_eq!(sampler.on_data(4), ReadReply::Continue);
    assert!(sampler.on_tick(1_000_000_000).is_some());
    assert_eq!(sampler.stats.last_interval_bytes, 0);
    assert_eq!(sampler.stats.last_rate, Rate::Finite(0));
    assert_eq!(sampler.next_action(), Action::Read);
}

#[test]
fn passthrough_forwards_every_byte_in_order() {
    let input: Vec<u8> = (0..=255u8).cycle().take(3000).collect();
    let reads: [Option<&[u8]>; 6] = [
        Some(&input[..1000]),
        None,
        Some(&input[1000..1001]),
        Some(&input[1001..2999]),
        Some(&input[2999..]),
        Some(&[]),
    ];
    let mut sampler = Sampler::new(config(2048, 1, true));
    // nanoseconds since the last report at each check of the clock
    let clock = [5, 1_000_000_000, 10, 20, 1_200_000_000, 30];
    let (reports, forwarded) = drive(&mut sampler, &reads, &clock);
    assert_eq!(forwarded, input);
    assert_eq!(reports.len(), 3);
    assert!(reports[1].starts_with("\x1b[3A"));
}

#[test]
fn average_is_the_mean_of_interval_rates() {
    let mut sampler = Sampler::new(config(4096, 1, false));
    let mut rates = Vec::new();
    for (n, t) in [(1000usize, 1_000_000_000u128), (3000, 2_000_000_000), (500, 1_000_000_000)] {
        assert_eq!(sampler.on_data(n), ReadReply::Continue);
        assert!(sampler.on_tick(t).is_some());
        rates.push(sampler.stats.total_rate_accum);
    }
    // 1000, 1500 and 500 bytes per second
    assert_eq!(sampler.stats.total_rate_accum, Rate::Finite(3_000_000));
    assert_eq!(sampler.stats.total_measures, 3);
    assert_eq!(sampler.stats.average_rate(), Rate::Finite(1_000_000));
    assert_eq!(rates, vec![Rate::Finite(1_000_000), Rate::Finite(2_500_000), Rate::Finite(3_000_000)]);
}

#[test]
fn settings_and_their_defaults() {
    assert_eq!(Config::checked(None, None, false), Ok(config(4096, 1, false)));
    assert_eq!(Config::checked(Some(10), Some(3), true), Ok(config(10, 3, true)));
    assert_eq!(Config::checked(Some(0), None, false), Err(ConfigError::EmptyBuffer));
    assert_eq!(Config::checked(None, Some(0), false), Err(ConfigError::NoIterations));
}

#[test]
fn source_selection() {
    assert_eq!(select_source(false, false), Ok(SourceKind::Stdin));
    assert_eq!(select_source(true, true), Ok(SourceKind::Tcp));
    assert_eq!(select_source(false, true), Ok(SourceKind::Tcp));
    assert_eq!(select_source(true, false), Err(ConfigError::PortMissing));
}
