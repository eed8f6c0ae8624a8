use nmixx::acquisition::{merge_demands, DecimationError, Decimator};
use nmixx::mixed_scope::{ScopeRate, ScopeSelection};

fn selection(id: u16, rate: ScopeRate) -> ScopeSelection {
    ScopeSelection { id, rate }
}

#[test]
fn visible_baseline_never_adds_a_device_channel() {
    let base = vec![selection(17, ScopeRate::Normal), selection(4, ScopeRate::Normal)];
    let expected = merge_demands(&[&base]);
    assert_eq!(merge_demands(&[&base, &[selection(17, ScopeRate::Normal)]]), expected);
    assert_eq!(merge_demands(&[&base, &[]]), expected);
}

#[test]
fn fastest_consumer_wins_without_duplicate_ids() {
    assert_eq!(
        merge_demands(&[&[selection(17, ScopeRate::Normal)], &[selection(17, ScopeRate::Fast)]]),
        vec![selection(17, ScopeRate::Fast)]
    );
}

#[test]
fn merged_demand_is_sorted_by_channel_id() {
    let merged = merge_demands(&[
        &[selection(9, ScopeRate::Normal), selection(2, ScopeRate::Fast)],
        &[selection(5, ScopeRate::Normal), selection(9, ScopeRate::Fast), selection(2, ScopeRate::Normal)],
    ]);
    assert_eq!(
        merged,
        vec![selection(2, ScopeRate::Fast), selection(5, ScopeRate::Normal), selection(9, ScopeRate::Fast)]
    );
    assert!(merge_demands(&[]).is_empty());
}

#[test]
fn decimator_keeps_every_second_sample_of_a_double_rate_source() {
    let mut decimator = Decimator::new(4);
    let kept: Vec<bool> = (0..8).map(|_| decimator.accept(8).unwrap()).collect();
    assert_eq!(kept, vec![false, true, false, true, false, true, false, true]);
}

#[test]
fn decimator_passes_every_sample_at_equal_rates() {
    let mut decimator = Decimator::new(4);
    for _ in 0..5 {
        assert_eq!(decimator.accept(4), Ok(true));
    }
}

#[test]
fn decimator_rejects_incompatible_source_rates() {
    let mut decimator = Decimator::new(4);
    assert_eq!(decimator.accept(2), Err(DecimationError::IncompatibleRates));
    assert_eq!(decimator.accept(6), Err(DecimationError::IncompatibleRates));
}

#[test]
fn decimator_restarts_its_count_when_the_source_rate_changes() {
    let mut decimator = Decimator::new(4);
    assert_eq!(decimator.accept(12), Ok(false));
    assert_eq!(decimator.accept(8), Ok(false));
    assert_eq!(decimator.accept(8), Ok(true));
}

use nmixx::acquisition::{base_selections, check_budget, check_capture_duration, check_rates, delivered, view_demand};
use nmixx::mixed_scope::{MixedScopeChannel, MixedScopeError};
use nmixx::plot_capabilities::{DevicePlotCapabilities, DevicePlotChannel};
use nmixx::schema::{HostSchema, ParameterMetadata, SchemaSource};
use nmixx::stream::TimeSpan;

fn base_schema() -> HostSchema {
    let parameter = |symbol: &str, id: u16| ParameterMetadata {
        symbol: symbol.to_owned(),
        name: None,
        id,
        value_type: "f32".to_owned(),
        access: "r".to_owned(),
        unit: None,
        description: String::new(),
        write_state: None,
        range: None,
        allowed: Vec::new(),
        allowed_symbols: Vec::new(),
        plot_scale: None,
    };
    HostSchema {
        schema_version: 1,
        protocol: "axdr-canfd-v1".to_owned(),
        source: SchemaSource { repository: "r".to_owned(), git_sha: "s".to_owned(), parameter_schema: 1 },
        parameters: vec![parameter("PARAM_ADC_VBUS", 0x30), parameter("PARAM_RUN_WM", 0x20), parameter("PARAM_RUN_IQ", 0x10)],
        actions: Vec::new(),
    }
}

fn plot_caps(fast: u32, normal: u32) -> DevicePlotCapabilities {
    DevicePlotCapabilities {
        fast_max_channels: 8,
        normal_max_channels: 15,
        fast_block_samples: 20,
        fast_rate_hz: fast,
        normal_rate_hz: normal,
        channels: vec![
            DevicePlotChannel { id: 0x10, modes: 3, fast_scale: 1.0f32.to_bits() },
            DevicePlotChannel { id: 0x20, modes: 1, fast_scale: 1.0f32.to_bits() },
            DevicePlotChannel { id: 0x30, modes: 2, fast_scale: 0 },
        ],
    }
}

fn record_channel(id: u16, hz: u32) -> MixedScopeChannel {
    MixedScopeChannel { id, label: String::new(), unit: None, rate: ScopeRate::Normal, sample_rate_hz: hz, scale: 1.0f32.to_bits() }
}

#[test]
fn the_baseline_is_the_normal_capable_base_channels_sorted() {
    let base = base_selections(&base_schema(), &plot_caps(20_000, 1_000));
    assert_eq!(base, vec![selection(0x10, ScopeRate::Normal), selection(0x30, ScopeRate::Normal)]);
}

#[test]
fn a_view_demands_its_channels_only_while_it_records() {
    let base = [selection(0x10, ScopeRate::Normal)];
    let own = [selection(0x11, ScopeRate::Fast)];
    let other = [selection(0x10, ScopeRate::Fast)];
    assert_eq!(view_demand(&base, &own, false, None), vec![selection(0x10, ScopeRate::Normal)]);
    assert_eq!(
        view_demand(&base, &own, true, Some(&other)),
        vec![selection(0x10, ScopeRate::Fast), selection(0x11, ScopeRate::Fast)]
    );
}

#[test]
fn records_must_fit_the_budget() {
    let ten_seconds = TimeSpan::from_secs(10);
    assert!(check_budget(&[record_channel(1, 1_000), record_channel(2, 20_000)], ten_seconds).is_ok());
    assert!(matches!(check_budget(&[record_channel(1, 20_000)], TimeSpan::from_secs(2_000)),
        Err(MixedScopeError::Runtime(m)) if m == "record exceeds the 128 MiB limit"));
    assert!(matches!(check_budget(&[record_channel(1, 0)], ten_seconds), Err(MixedScopeError::Stream(_))));
}

#[test]
fn device_rates_and_capture_lengths_are_checked() {
    assert!(check_rates(&plot_caps(20_000, 1_000)).is_ok());
    assert!(matches!(check_rates(&plot_caps(20_000, 3_000)),
        Err(MixedScopeError::Runtime(m)) if m == "FAST rate must be an integer multiple of NORMAL"));
    assert!(check_rates(&plot_caps(20_000, 0)).is_err());
    let history = TimeSpan::from_secs(2);
    assert!(check_capture_duration(TimeSpan::from_secs(2), history).is_ok());
    assert!(check_capture_duration(TimeSpan { nanos: 0 }, history).is_err());
    assert!(check_capture_duration(TimeSpan::from_secs(3), history).is_err());
    let actual = [selection(5, ScopeRate::Fast)];
    assert!(delivered(&actual, 5, ScopeRate::Fast));
    assert!(!delivered(&actual, 5, ScopeRate::Normal));
}
