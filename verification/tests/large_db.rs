use wasabi::large_db::{
    body, chat_jid, fmt_ns, group_push_name, humansize_bytes, image_fixture, is_group_chat,
    kind_for, message_id, parse_mode, participant_jid, row_timestamp_ms, rows_in_chat,
    sender_jid, spacing_ms, summarize_samples, us, Kind, Lcg, Mode, RowPlanner, BASE_MS, CHATS,
    MIX_SEED, SPAN_MS,
};
use wasabi::large_db::{
    labelled_value, report_line, summary_line, GenStep, Generation, KeyedSummary, OpSummary,
    INBOUND_BATCH,
};

#[test]
fn mix_buckets_follow_the_documented_shares() {
    assert_eq!(kind_for(0), Kind::IncomingText);
    assert_eq!(kind_for(69), Kind::IncomingText);
    assert_eq!(kind_for(70), Kind::OutgoingText);
    assert_eq!(kind_for(84), Kind::OutgoingText);
    assert_eq!(kind_for(85), Kind::ImageMeta);
    assert_eq!(kind_for(94), Kind::ImageMeta);
    assert_eq!(kind_for(95), Kind::IncomingText);
    assert_eq!(kind_for(199), Kind::IncomingText);
    let shares = (0..100u64).fold([0u32; 3], |mut acc, d| {
        match kind_for(d) {
            Kind::IncomingText => acc[0] += 1,
            Kind::OutgoingText => acc[1] += 1,
            Kind::ImageMeta => acc[2] += 1,
        }
        acc
    });
    assert_eq!(shares, [75, 15, 10]);
}

#[test]
fn lcg_is_seeded_odd_and_reproducible() {
    let mut a = Lcg::new(0xDA7A_BA5E);
    let mut b = Lcg::new(0xDA7A_BA5F);
    for _ in 0..16 {
        assert_eq!(a.next(), b.next());
    }
    let mut g = Lcg::new(0);
    let s1 = 1u64.wrapping_mul(6364136223846793005).wrapping_add(1442695040888963407);
    assert_eq!(g.next(), s1 >> 33);
    let s2 = s1.wrapping_mul(6364136223846793005).wrapping_add(1442695040888963407);
    assert_eq!(g.next(), s2 >> 33);
    assert!(g.next() < (1u64 << 31));
}

#[test]
fn fixture_jids_and_bodies() {
    assert!(is_group_chat(6));
    assert!(!is_group_chat(7));
    assert_eq!(chat_jid(6), "12036301100006@g.us");
    assert_eq!(chat_jid(0), "559930000000@s.whatsapp.net");
    assert_eq!(chat_jid(9_999), "559930009999@s.whatsapp.net");
    assert_eq!(participant_jid(3), "559741000003@s.whatsapp.net");
    assert_eq!(body(0), "standup notes update #0");
    assert_eq!(body(13), "call me back update #13");
    assert_eq!(message_id(42), "GEN000000042");
    assert_eq!(group_push_name(27), "GenUser07");
    assert_eq!(sender_jid(6, 45), "559741000005@s.whatsapp.net");
    assert_eq!(sender_jid(5, 45), chat_jid(5));
    let img = image_fixture(5000);
    assert_eq!(img.url, "https://media.gen.invalid/5000.jpg");
    assert_eq!(img.mimetype, "image/jpeg");
    assert_eq!(img.file_length, 48_000 + 5000 % 4096);
    assert_eq!((img.width, img.height), (1080, 1350));
}

#[test]
fn report_units_are_readable() {
    assert_eq!(fmt_ns(999), "999 ns");
    assert_eq!(fmt_ns(1_000), "1.0 µs");
    assert_eq!(fmt_ns(12_345), "12.3 µs");
    assert_eq!(fmt_ns(1_234_567), "1.23 ms");
    assert_eq!(fmt_ns(2_000_000_000), "2000.00 ms");
    assert_eq!(us(1_250), "1.2");
    assert_eq!(us(0), "0.0");
    assert_eq!(humansize_bytes(0), "0.0 B");
    assert_eq!(humansize_bytes(1023), "1023.0 B");
    assert_eq!(humansize_bytes(1536), "1.5 KiB");
    assert_eq!(humansize_bytes(3 * 1024 * 1024 * 1024), "3.0 GiB");
    assert_eq!(humansize_bytes(5 * 1024u64.pow(5)), "5120.0 TiB");
}

#[test]
fn mode_parsing_is_case_insensitive() {
    assert_eq!(parse_mode("gen").unwrap(), Mode::Gen);
    assert_eq!(parse_mode("BENCH").unwrap(), Mode::Bench);
    assert_eq!(parse_mode("Both").unwrap(), Mode::Both);
    let err = parse_mode("Fast").unwrap_err();
    assert_eq!(err.value, "fast");
}

#[test]
fn rows_spread_evenly_over_chats() {
    let total = 1_000_003u64;
    let sum: u64 = (0..CHATS).map(|c| rows_in_chat(total, c)).sum();
    assert_eq!(sum, total);
    assert_eq!(rows_in_chat(total, 0), 101);
    assert_eq!(rows_in_chat(total, 2), 101);
    assert_eq!(rows_in_chat(total, 3), 100);
    assert_eq!(rows_in_chat(5, 4), 1);
    assert_eq!(rows_in_chat(5, 5), 0);
}

#[test]
fn timestamps_ascend_across_the_span() {
    assert_eq!(spacing_ms(0), SPAN_MS);
    assert_eq!(spacing_ms(1_000_000), SPAN_MS / 1_000_000);
    assert_eq!(spacing_ms(SPAN_MS as u64 + 1), 1);
    assert_eq!(spacing_ms(u64::MAX), 1);
    let step = spacing_ms(1_000_000);
    assert_eq!(row_timestamp_ms(0, step), BASE_MS);
    assert_eq!(row_timestamp_ms(10, step), BASE_MS + 10 * step);
}

#[test]
fn summaries_read_median_and_p95_from_sorted_samples() {
    let mut samples: Vec<u128> = (1..=25u128).rev().collect();
    let s = summarize_samples(&mut samples);
    assert_eq!(s.median_ns, 13);
    assert_eq!(s.p95_ns, 23);
    assert_eq!(samples, (1..=25u128).collect::<Vec<_>>());
    let mut even = vec![4u128, 1, 3, 2];
    let e = summarize_samples(&mut even);
    assert_eq!(e.median_ns, 2);
    assert_eq!(e.p95_ns, 3);
    let mut big = vec![u128::MAX, u128::MAX];
    assert_eq!(summarize_samples(&mut big).median_ns, u128::MAX);
}

#[test]
fn the_planner_walks_every_row_chat_by_chat() {
    let total: u64 = 25_003;
    let mut planner = RowPlanner::new(total);
    let mut rng = Lcg::new(MIX_SEED);
    let mut counts = vec![0u64; CHATS as usize];
    let mut last_chat = 0;
    let mut n = 0u64;
    while let Some(row) = planner.next_row() {
        assert_eq!(row.ordinal, n);
        assert!(row.chat >= last_chat);
        assert_eq!(row.kind, kind_for(rng.next()));
        last_chat = row.chat;
        counts[row.chat as usize] += 1;
        n += 1;
    }
    assert_eq!(n, total);
    assert!(planner.next_row().is_none());
    for c in 0..CHATS {
        assert_eq!(counts[c as usize], rows_in_chat(total, c));
    }
    assert_eq!(counts[0], 3);
    assert_eq!(counts[5002], 3);
    assert_eq!(counts[5003], 2);
}

#[test]
fn report_lines_align_their_columns() {
    let header = report_line("operation", "p50", "p95", "iters");
    assert_eq!(header, format!("{:<30}{:>12}{:>12}{:>8}", "operation", "p50", "p95", "iters"));
    let row = report_line("chat_page(None, 100)", "1.25 ms", "980.0 µs", "25");
    assert_eq!(row, format!("{:<30}{:>12}{:>12}{:>8}", "chat_page(None, 100)", "1.25 ms", "980.0 µs", "25"));
    let long = "x".repeat(40);
    assert_eq!(report_line(&long, "", "", ""), format!("{:<30}{:>12}{:>12}{:>8}", long, "", "", ""));
    assert_eq!(labelled_value("db size", "1.5 GiB"), format!("{:<30}{:>12}", "db size", "1.5 GiB"));
}

#[test]
fn summary_line_lists_every_operation_then_the_file() {
    let stats = vec![
        KeyedSummary { key: "chat_page", summary: OpSummary { median_ns: 1_250, p95_ns: 2_000_049 } },
        KeyedSummary { key: "search", summary: OpSummary { median_ns: 50, p95_ns: 150 } },
    ];
    assert_eq!(
        summary_line(&stats, 4096, Some((10, 4096))),
        "SUMMARY {\"chat_page_p50_us\":1.2,\"chat_page_p95_us\":2000.0,\"search_p50_us\":0.1,\"search_p95_us\":0.1,\"db_bytes\":4096,\"page_count\":10,\"page_size\":4096}"
    );
    assert_eq!(summary_line(&[], 0, None), "SUMMARY {\"db_bytes\":0}");
}

#[test]
fn generation_batches_inbound_rows_and_flushes_on_schedule() {
    let total: u64 = 100_001;
    let mut generation = Generation::new(total);
    let (mut outgoing, mut queued, mut applied, mut flushes) = (0u64, 0u64, 0u64, 0u64);
    let mut in_batch = 0u64;
    let mut rows_seen = 0u64;
    loop {
        match generation.next_step() {
            GenStep::RecordOutgoing(row) => {
                assert_eq!(row.kind, Kind::OutgoingText);
                assert_eq!(row.ordinal, rows_seen);
                rows_seen += 1;
                outgoing += 1;
            }
            GenStep::Queue(row) => {
                assert_ne!(row.kind, Kind::OutgoingText);
                assert_eq!(row.ordinal, rows_seen);
                rows_seen += 1;
                queued += 1;
                in_batch += 1;
                assert!(in_batch <= INBOUND_BATCH);
            }
            GenStep::ApplyBatch => {
                assert!(in_batch > 0);
                applied += in_batch;
                in_batch = 0;
            }
            GenStep::Flush => flushes += 1,
            GenStep::Done => break,
        }
    }
    assert_eq!(rows_seen, total);
    assert_eq!(outgoing + queued, total);
    assert_eq!(applied, queued);
    // Two periodic flushes (after rows 50 000 and 100 000) and the closing one.
    assert_eq!(flushes, 3);
    assert_eq!(generation.next_step(), GenStep::Done);
}

fn listed(id: &str, activity: i64, pinned: Option<i64>) -> wasabi::model::ChatSummary {
    wasabi::model::ChatSummary {
        id: id.to_string(),
        kind: wasabi::model::ChatKind::Direct,
        display_name: None,
        last_activity_ms: activity,
        last_message_preview: None,
        unread_count: 0,
        pinned_at_ms: pinned,
        muted_until_ms: None,
        archived: false,
        favorite: false,
        draft_preview: None,
    }
}

#[test]
fn the_cursor_walk_follows_full_pages_and_parks_four_fifths_down() {
    let mut walk = wasabi::large_db::CursorWalk::new();
    assert!(walk.deep_cursor().is_none());
    let mut pages_seen = 0;
    for p in 0..5i64 {
        let page: Vec<_> = (0..3i64)
            .map(|i| listed(&format!("c{p}-{i}"), 1000 - p * 10 - i, if p == 0 { Some(9) } else { None }))
            .collect();
        let size = if p < 4 { 3 } else { 4 };
        let next = walk.on_page(&page, size);
        pages_seen += 1;
        if p < 4 {
            let next = next.expect("a full page continues the walk");
            assert_eq!(next.chat, format!("c{p}-2"));
            assert_eq!(next.last_activity_ms, 1000 - p * 10 - 2);
        } else {
            assert!(next.is_none());
            assert!(walk.done);
        }
    }
    assert_eq!(pages_seen, 5);
    assert_eq!(walk.cursors.len(), 5);
    assert_eq!(walk.cursors[0].pinned_at_ms, Some(9));
    let deep = walk.deep_cursor().expect("five pages were seen");
    assert_eq!(deep.chat, "c4-2");

    let mut short = wasabi::large_db::CursorWalk::new();
    assert!(short.on_page(&[], wasabi::large_db::CHAT_PAGE).is_none());
    assert!(short.done);
    assert!(short.deep_cursor().is_none());
}

#[test]
fn an_unknown_mode_is_refused_with_the_quoted_value() {
    let e = parse_mode("Fast").err().unwrap();
    assert_eq!(e.message(), "MODE must be gen|bench|both, got \"fast\"");
    let e = parse_mode("a\"B\n").err().unwrap();
    assert_eq!(e.message(), format!("MODE must be gen|bench|both, got {:?}", "a\"b\n"));
}

fn printed_like_f64(ns: u128) -> String {
    if ns >= 1_000_000 {
        format!("{:.2} ms", ns as f64 / 1e6)
    } else if ns >= 1_000 {
        format!("{:.1} µs", ns as f64 / 1e3)
    } else {
        format!("{ns} ns")
    }
}

#[test]
fn durations_print_the_binary64_quotient() {
    assert_eq!(fmt_ns(1_150), "1.1 µs");
    assert_eq!(fmt_ns(1_015_000), "1.01 ms");
    assert_eq!(fmt_ns(1_125_000), "1.12 ms");
    assert_eq!(fmt_ns(1_135_000), "1.14 ms");
    assert_eq!(us(1_150), "1.1");
    assert_eq!(us(2_250), "2.2");
    for ns in 0..300_000u128 {
        assert_eq!(fmt_ns(ns), printed_like_f64(ns), "{ns}");
    }
    let mut x: u128 = 0x9E37_79B9_7F4A_7C15_F39C_C060_5CED_C834;
    for shift in 0..128u32 {
        for _ in 0..200 {
            x = x.wrapping_mul(0x2360_ED05_1FC6_5DA4_4385_DF64_9FCC_F645).wrapping_add(0x5851_F42D_4C95_7F2D);
            let ns = x >> shift;
            assert_eq!(fmt_ns(ns), printed_like_f64(ns), "{ns}");
            assert_eq!(us(ns), format!("{:.1}", ns as f64 / 1e3), "{ns}");
            let tie = (ns >> 8) / 5_000 * 5_000 + 5_000;
            assert_eq!(fmt_ns(tie), printed_like_f64(tie), "{tie}");
            assert_eq!(us(tie / 100 * 50), format!("{:.1}", (tie / 100 * 50) as f64 / 1e3));
        }
    }
    assert_eq!(fmt_ns(u128::MAX), printed_like_f64(u128::MAX));
    assert_eq!(us(u128::MAX), format!("{:.1}", u128::MAX as f64 / 1e3));
}

#[test]
fn byte_counts_follow_the_double_everywhere() {
    let reference = |b: u64| -> String {
        const UNITS: [&str; 5] = ["B", "KiB", "MiB", "GiB", "TiB"];
        let mut v = b as f64;
        let mut unit = 0;
        while v >= 1024.0 && unit < UNITS.len() - 1 {
            v /= 1024.0;
            unit += 1;
        }
        format!("{v:.1} {}", UNITS[unit])
    };
    let mut x: u64 = 0x0F1E_2D3C_4B5A_6978;
    for shift in 0..64u32 {
        for _ in 0..300 {
            x = x.wrapping_mul(6364136223846793005).wrapping_add(1442695040888963407);
            let b = x >> shift;
            assert_eq!(humansize_bytes(b), reference(b), "{b}");
        }
    }
    assert_eq!(humansize_bytes(u64::MAX), reference(u64::MAX));
}
