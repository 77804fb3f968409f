use nvoc::cli::{parse_clocks, ArgValues, Command, Config, DeviceSelector, Operation, OverclockParams};

#[test]
fn parse_clocks_accepts_min_max() {
    assert_eq!(parse_clocks("200,2800"), Ok((200, 2800)));
    assert_eq!(parse_clocks("+200,2820"), Ok((200, 2820)));
    assert_eq!(parse_clocks("0,4294967295"), Ok((0, u32::MAX)));
}

#[test]
fn parse_clocks_rejects_bad_format() {
    assert_eq!(parse_clocks("200"), Err("Clock format must be 'min,max'"));
    assert_eq!(parse_clocks("1,2,3"), Err("Clock format must be 'min,max'"));
    assert_eq!(parse_clocks(""), Err("Clock format must be 'min,max'"));
}

#[test]
fn parse_clocks_rejects_bad_values() {
    assert_eq!(parse_clocks("a,2800"), Err("Invalid minimum clock value"));
    assert_eq!(parse_clocks(",2800"), Err("Invalid minimum clock value"));
    assert_eq!(parse_clocks("-1,2800"), Err("Invalid minimum clock value"));
    assert_eq!(parse_clocks("+,2800"), Err("Invalid minimum clock value"));
    assert_eq!(parse_clocks("200, 2800"), Err("Invalid maximum clock value"));
    assert_eq!(parse_clocks("200,4294967296"), Err("Invalid maximum clock value"));
    assert_eq!(parse_clocks("200,"), Err("Invalid maximum clock value"));
}

#[test]
fn parse_clocks_requires_increasing_bounds() {
    assert_eq!(parse_clocks("2800,200"), Err("Minimum clock must be less than maximum clock"));
    assert_eq!(parse_clocks("200,200"), Err("Minimum clock must be less than maximum clock"));
}

#[test]
fn parse_clocks_agrees_with_std_parse() {
    for s in ["7", "+7", "007", "+", "-", "", "4294967295", "4294967296", "1 ", "٣"] {
        let mine = parse_clocks(&format!("{},4294967295", s)).ok().map(|p| p.0);
        let std = s.parse::<u32>().ok().filter(|v| *v < u32::MAX);
        assert_eq!(mine, std, "{s}");
    }
}

#[test]
fn clocks_roundtrip_through_text() {
    for (a, b) in [(0u32, 1u32), (210, 2100), (123456, 4294967295)] {
        assert_eq!(parse_clocks(&format!("{a},{b}")), Ok((a, b)));
    }
}

#[test]
fn only_info_leaves_gpu_alone() {
    assert!(!Operation::Info.modifies_gpu());
    assert!(Operation::Reset { dry_run: true }.modifies_gpu());
    let p = OverclockParams { clocks: None, graphics_offset: Some(1), memory_offset: None, power_limit: None, dry_run: true };
    assert!(Operation::Overclock(p).modifies_gpu());
}

fn args(command: Command) -> ArgValues {
    ArgValues {
        command,
        clocks: None,
        graphics_offset: None,
        memory_offset: None,
        power_limit: None,
        dry_run: false,
        no_table: false,
        device: None,
        match_regex: None,
        all: false,
    }
}

#[test]
fn info_defaults_to_all_gpus() {
    let c = Config::from_values(args(Command::Info)).unwrap();
    assert!(matches!(c.selector, DeviceSelector::All));
    assert!(matches!(c.operation, Operation::Info));
}

#[test]
fn reset_and_apply_default_to_gpu_zero() {
    let c = Config::from_values(args(Command::Reset { dry_run: true })).unwrap();
    assert!(matches!(c.selector, DeviceSelector::Single(0)));
    assert!(matches!(c.operation, Operation::Reset { dry_run: true }));
    let mut a = args(Command::Apply);
    a.graphics_offset = Some(400);
    a.memory_offset = Some(-6000);
    a.dry_run = true;
    let c = Config::from_values(a).unwrap();
    assert!(matches!(c.selector, DeviceSelector::Single(0)));
    match c.operation {
        Operation::Overclock(p) => {
            assert_eq!(p.graphics_offset, Some(400));
            assert_eq!(p.memory_offset, Some(-6000));
            assert_eq!(p.clocks, None);
            assert!(p.dry_run);
        }
        _ => panic!("expected an overclock"),
    }
}

#[test]
fn apply_without_options_is_refused() {
    let e = Config::from_values(args(Command::Apply)).unwrap_err();
    assert_eq!(
        e.message(),
        "No operation specified. Use a subcommand (info, reset) or provide overclock options (-c, -o, -m, -p)."
    );
}

#[test]
fn selector_precedence_device_all_match() {
    let mut a = args(Command::Info);
    a.device = Some(2);
    a.all = true;
    a.match_regex = Some("RTX".to_string());
    a.no_table = true;
    let c = Config::from_values(a).unwrap();
    assert!(matches!(c.selector, DeviceSelector::Single(2)));
    assert!(c.no_table);
    let mut a = args(Command::Info);
    a.all = true;
    a.match_regex = Some("RTX".to_string());
    assert!(matches!(Config::from_values(a).unwrap().selector, DeviceSelector::All));
    let mut a = args(Command::Reset { dry_run: false });
    a.match_regex = Some("RTX".to_string());
    match Config::from_values(a).unwrap().selector {
        DeviceSelector::Match(re) => assert_eq!(re, "RTX"),
        _ => panic!("expected a pattern"),
    }
}
