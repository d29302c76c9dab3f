use rustest::telemetry::{Proc, ProcSelf};

fn meminfo_sample() -> Vec<u8> {
    let text = "MemTotal:       32768000 kB\n\
                MemFree:         1024000 kB\n\
                Mlocked:            2048 kB\n\
                SwapTotal:       8388608 kB\n\
                SwapFree:        8282112 kB\n\
                AnonPages:       4194304 kB\n\
                Hugetlb:               0 kB\n";
    text.as_bytes().to_vec()
}

fn vmstat_sample(pswpin: u64, pswpout: u64) -> Vec<u8> {
    format!("nr_free_pages 256000\npswpin {}\npswpout {}\npgfault 123\n", pswpin, pswpout)
        .into_bytes()
}

#[test]
fn collect_parses_every_labelled_field() {
    let sys = Proc::collect(None, &meminfo_sample(), &vmstat_sample(11, 22), 4096);
    assert_eq!(sys.page_size, 4096);
    assert_eq!(sys.mlocked, 2048);
    assert_eq!(sys.swap_total, 8388608);
    assert_eq!(sys.swap_free, 8282112);
    assert_eq!(sys.anon_pages, 4194304);
    assert_eq!(sys.pswpin, 11);
    assert_eq!(sys.pswpout, 22);
}

#[test]
fn first_sample_has_zero_deltas() {
    let sys = Proc::collect(None, &meminfo_sample(), &vmstat_sample(500, 700), 4096);
    assert_eq!(sys.pswpin_delta, 0);
    assert_eq!(sys.pswpout_delta, 0);
}

#[test]
fn second_sample_reports_the_counter_increase() {
    let first = Proc::collect(None, &meminfo_sample(), &vmstat_sample(100, 200), 4096);
    let second = Proc::collect(Some(&first), &meminfo_sample(), &vmstat_sample(150, 260), 4096);
    assert_eq!(second.pswpin_delta, 50);
    assert_eq!(second.pswpout_delta, 60);
}

#[test]
fn a_decreasing_counter_yields_a_zero_delta() {
    let first = Proc::collect(None, &meminfo_sample(), &vmstat_sample(100, 200), 4096);
    let second = Proc::collect(Some(&first), &meminfo_sample(), &vmstat_sample(40, 210), 4096);
    assert_eq!(second.pswpin_delta, 0);
    assert_eq!(second.pswpout_delta, 10);
}

#[test]
fn missing_swap_total_defaults_to_zero_with_the_rest_intact() {
    // The swap-capacity line is absent: its field is zero, every other
    // field is populated normally, and no error reaches the caller.
    let text = "Mlocked:            2048 kB\n\
                SwapFree:        8282112 kB\n\
                AnonPages:       4194304 kB\n";
    let sys = Proc::collect(None, &text.as_bytes().to_vec(), &vmstat_sample(1, 2), 4096);
    assert_eq!(sys.swap_total, 0);
    assert_eq!(sys.mlocked, 2048);
    assert_eq!(sys.swap_free, 8282112);
    assert_eq!(sys.anon_pages, 4194304);
    assert_eq!(sys.pswpin, 1);
}

#[test]
fn unreadable_sources_leave_every_field_zero() {
    let empty: Vec<u8> = Vec::new();
    let sys = Proc::collect(None, &empty, &empty, 4096);
    assert_eq!(
        (sys.mlocked, sys.swap_total, sys.swap_free, sys.anon_pages, sys.pswpin, sys.pswpout),
        (0, 0, 0, 0, 0, 0)
    );
}

#[test]
fn malformed_values_default_to_zero() {
    let text = "Mlocked: abc kB\nSwapTotal:\nSwapFree: 99999999999999999999999 kB\nAnonPages: 12 kB\n";
    let sys = Proc::collect(None, &text.as_bytes().to_vec(), &Vec::new(), 4096);
    assert_eq!(sys.mlocked, 0);
    assert_eq!(sys.swap_total, 0);
    assert_eq!(sys.swap_free, 0);
    assert_eq!(sys.anon_pages, 12);
}

#[test]
fn one_leading_plus_sign_is_part_of_a_number() {
    let text = "Mlocked: +2048 kB\nSwapTotal: + kB\nSwapFree: ++5 kB\nAnonPages: 1 kB\n";
    let sys = Proc::collect(None, &text.as_bytes().to_vec(), &"pswpin +9\n".as_bytes().to_vec(), 4096);
    assert_eq!(sys.mlocked, 2048);
    assert_eq!(sys.swap_total, 0);
    assert_eq!(sys.swap_free, 0);
    assert_eq!(sys.anon_pages, 1);
    assert_eq!(sys.pswpin, 9);
}

#[test]
fn vmstat_value_must_fill_the_rest_of_the_line() {
    // A trailing token after the number is not a plain value.
    let text = "pswpin 5 extra\npswpout 7\n";
    let sys = Proc::collect(None, &Vec::new(), &text.as_bytes().to_vec(), 4096);
    assert_eq!(sys.pswpin, 0);
    assert_eq!(sys.pswpout, 7);
}

#[test]
fn carriage_returns_are_stripped_from_line_ends() {
    let text = "Mlocked: 1024 kB\r\nAnonPages: 2048 kB\r\n";
    let sys = Proc::collect(None, &text.as_bytes().to_vec(), &Vec::new(), 4096);
    assert_eq!(sys.mlocked, 1024);
    assert_eq!(sys.anon_pages, 2048);
}

#[test]
fn later_lines_win_before_the_scan_stops() {
    let text = "Mlocked: 1 kB\nMlocked: 2 kB\nAnonPages: 3 kB\nMlocked: 9 kB\n";
    let sys = Proc::collect(None, &text.as_bytes().to_vec(), &Vec::new(), 4096);
    // The anonymous-pages line ends the scan, so the third locked line is
    // never read.
    assert_eq!(sys.mlocked, 2);
    assert_eq!(sys.anon_pages, 3);
}

#[test]
fn tabs_separate_label_and_value_too() {
    let text = "Mlocked:\t\t512 kB\nAnonPages:\t1024 kB\n";
    let sys = Proc::collect(None, &text.as_bytes().to_vec(), &Vec::new(), 4096);
    assert_eq!(sys.mlocked, 512);
    assert_eq!(sys.anon_pages, 1024);
}

#[test]
fn megabyte_figures_follow_the_status_line_formulas() {
    let sys = Proc {
        page_size: 4096,
        mlocked: 2048,
        swap_total: 8388608,
        swap_free: 8282112,
        anon_pages: 4194304,
        pswpin: 0,
        pswpout: 0,
        pswpin_delta: 256,
        pswpout_delta: 512,
    };
    assert_eq!(sys.locked_mb(), 2);
    assert_eq!(sys.unlocked_mb(), 4096 - 2);
    assert_eq!(sys.swap_used_mb(), 8192 - 8088);
    assert_eq!(sys.swap_in_mb(), 1);
    assert_eq!(sys.swap_out_mb(), 2);
}

#[test]
fn more_locked_than_anonymous_floors_at_zero() {
    let sys = Proc {
        page_size: 4096,
        mlocked: 4096,
        swap_total: 1024,
        swap_free: 2048,
        anon_pages: 1024,
        pswpin: 0,
        pswpout: 0,
        pswpin_delta: 0,
        pswpout_delta: 0,
    };
    assert_eq!(sys.unlocked_mb(), 0);
    assert_eq!(sys.swap_used_mb(), 0);
}

#[test]
fn system_status_line_renders_the_five_figures() {
    let sys = Proc::collect(None, &meminfo_sample(), &vmstat_sample(0, 0), 4096);
    let expected = format!(
        "locked {:5} MB, unlocked {:5} MB, swap {:5} MB, swap i/o +{}/+{} MB",
        2,
        4096 - 2,
        8192 - 8088,
        0,
        0
    );
    assert_eq!(sys.render(), expected);
}

#[test]
fn process_snapshot_parses_its_three_fields() {
    let text = "Name:\tsome-tool\nVmLck:      1024 kB\nRssAnon:    3072 kB\nVmSwap:     2048 kB\n";
    let pid = ProcSelf::collect(&text.as_bytes().to_vec());
    assert_eq!(pid.vm_lck, 1024);
    assert_eq!(pid.rss_anon, 3072);
    assert_eq!(pid.vm_swap, 2048);
    assert_eq!(pid.locked_mb(), 1);
    assert_eq!(pid.unlocked_mb(), 2);
    assert_eq!(pid.swap_mb(), 2);
    let expected = format!("locked {:5} MB, unlocked {:5} MB, swap {:5} MB", 1, 2, 2);
    assert_eq!(pid.render(), expected);
}

#[test]
fn process_snapshot_of_an_unreadable_source_is_zero() {
    let pid = ProcSelf::collect(&Vec::new());
    assert_eq!((pid.vm_lck, pid.rss_anon, pid.vm_swap), (0, 0, 0));
}
