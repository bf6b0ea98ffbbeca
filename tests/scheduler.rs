use gridlogger::rows::{aggregate, complete_or_sentinel, sentinel_row, settle, SourceError};
use gridlogger::scheduler::{header, widths_of, Scheduler};

fn ok(row: Vec<f64>) -> Result<Vec<f64>, SourceError> {
    Ok(row)
}

#[test]
fn slow_row_is_cached_between_resamples() {
    // One fast source with 3 metrics, one slow source with 2, resampled every 3 ticks.
    let mut s = Scheduler::new(3, vec![3], vec![2], -1.0).unwrap();
    let mut rows = Vec::new();
    for tick in 0..4u32 {
        let t = tick as f64;
        let fast = vec![ok(vec![t, t + 0.5, t + 0.25])];
        let slow = if s.resample_due() { Some(vec![ok(vec![100.0 + t, 200.0 + t])]) } else { None };
        assert_eq!(slow.is_some(), tick == 0 || tick == 3);
        rows.push(s.emit(1000.0 + t, &fast, &slow));
    }
    for (tick, row) in rows.iter().enumerate() {
        let t = tick as f64;
        assert_eq!(row.len(), 6);
        assert_eq!(row[0], 1000.0 + t);
        assert_eq!(&row[1..4], &[t, t + 0.5, t + 0.25]);
    }
    assert_eq!(&rows[0][4..], &[100.0, 200.0]);
    assert_eq!(&rows[1][4..], &[100.0, 200.0]);
    assert_eq!(&rows[2][4..], &[100.0, 200.0]);
    assert_eq!(&rows[3][4..], &[103.0, 203.0]);
}

#[test]
fn row_width_is_constant_even_when_sources_fail() {
    let mut s = Scheduler::new(2, vec![1, 2], vec![3], -1.0).unwrap();
    for tick in 0..7u32 {
        let fast = match tick % 3 {
            0 => vec![ok(vec![1.0]), ok(vec![2.0, 3.0])],
            1 => vec![Err(SourceError::Transport), ok(vec![2.0])],
            _ => vec![ok(vec![1.0])],
        };
        let slow = if s.resample_due() {
            Some(if tick % 4 == 0 { vec![ok(vec![4.0, 5.0, 6.0])] } else { vec![Err(SourceError::Auth)] })
        } else {
            None
        };
        let row = s.emit(tick as f64, &fast, &slow);
        assert_eq!(row.len(), 1 + 1 + 2 + 3);
    }
}

#[test]
fn failed_sources_only_degrade_their_own_columns() {
    let mut s = Scheduler::new(1, vec![2, 1], vec![1], -1.0).unwrap();
    let row = s.emit(
        7.0,
        &vec![Err(SourceError::Protocol), ok(vec![9.0])],
        &Some(vec![ok(vec![8.0, 8.5])]),
    );
    assert_eq!(row, vec![7.0, -1.0, -1.0, 9.0, -1.0]);
    let row = s.emit(8.0, &vec![ok(vec![1.0, 2.0])], &Some(vec![ok(vec![3.0])]));
    assert_eq!(row, vec![8.0, 1.0, 2.0, -1.0, 3.0]);
}

#[test]
fn resample_tick_without_slow_outcomes_reports_sentinels() {
    let mut s = Scheduler::new(2, vec![], vec![2], -1.0).unwrap();
    assert_eq!(s.emit(0.0, &vec![], &None), vec![0.0, -1.0, -1.0]);
    assert_eq!(s.emit(1.0, &vec![], &Some(vec![ok(vec![5.0, 6.0])])), vec![1.0, -1.0, -1.0]);
    assert_eq!(s.emit(2.0, &vec![], &Some(vec![ok(vec![5.0, 6.0])])), vec![2.0, 5.0, 6.0]);
}

#[test]
fn period_of_one_resamples_every_tick() {
    let mut s = Scheduler::new(1, vec![], vec![1], 0).unwrap();
    for tick in 0..5i64 {
        assert!(s.resample_due());
        let row = s.emit(tick, &vec![], &Some(vec![Ok(vec![tick * 10])]));
        assert_eq!(row, vec![tick, tick * 10]);
    }
}

#[test]
fn zero_period_is_refused() {
    assert!(Scheduler::<f64>::new(0, vec![1], vec![1], -1.0).is_none());
}

#[test]
fn header_lists_timestamp_fast_then_slow() {
    let fast = vec![vec!["a_x".to_string(), "a_y".to_string()], vec![]];
    let slow = vec![vec!["b_z".to_string()]];
    assert_eq!(header(&fast, &slow), vec!["timestamp", "a_x", "a_y", "b_z"]);
    assert_eq!(widths_of(&fast), vec![2, 0]);
    assert_eq!(widths_of(&slow), vec![1]);
}

#[test]
fn settle_keeps_rows_of_the_right_width_only() {
    assert_eq!(settle(&ok(vec![1.0, 2.0]), 2, -1.0), vec![1.0, 2.0]);
    assert_eq!(settle(&ok(vec![1.0]), 2, -1.0), vec![-1.0, -1.0]);
    assert_eq!(settle(&ok(vec![1.0, 2.0, 3.0]), 2, -1.0), vec![-1.0, -1.0]);
    assert_eq!(settle(&Err(SourceError::DataShape), 3, -1.0), vec![-1.0, -1.0, -1.0]);
    assert_eq!(settle(&ok(vec![]), 0, -1.0), Vec::<f64>::new());
    assert_eq!(sentinel_row(0, -1.0), Vec::<f64>::new());
}

#[test]
fn aggregate_concatenates_in_source_order() {
    let os = vec![ok(vec![1.0]), Err(SourceError::Auth), ok(vec![2.0, 3.0])];
    assert_eq!(aggregate(&os, &vec![1, 2, 2, 1], -1.0), vec![1.0, -1.0, -1.0, 2.0, 3.0, -1.0]);
}

#[test]
fn one_missing_reading_blanks_the_row() {
    assert_eq!(complete_or_sentinel(&vec![Some(10000.0), None, Some(100.0)], -1.0), vec![-1.0, -1.0, -1.0]);
    assert_eq!(complete_or_sentinel(&vec![Some(10000.0), Some(1200.0), Some(100.0)], -1.0), vec![10000.0, 1200.0, 100.0]);
    assert_eq!(complete_or_sentinel::<f64>(&vec![], -1.0), Vec::<f64>::new());
}
