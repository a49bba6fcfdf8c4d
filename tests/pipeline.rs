use weibo_collect::{
    classify, file_name, sequence, CaptureAction, CaptureEvent, CaptureRun, CaptureStatus, Collector,
    Error, MBlog, MBlogRaw, PageOutcome, RootCard, RootCardRaw, TimeWindow, SECONDS_PER_DAY,
};

// 2024-01-01T00:00:00Z and 2023-12-25T00:00:00Z.
const RECENT: i64 = 1_704_067_200;
const CUTOFF: i64 = 1_703_462_400;

fn window() -> TimeWindow {
    TimeWindow { recent_boundary: RECENT, cutoff_boundary: CUTOFF }
}

fn raw_blog(id: &str, created_at: &str, is_retweet: bool) -> MBlogRaw {
    MBlogRaw {
        text: format!("post {}", id),
        id: id.to_string(),
        reposts_count: 1,
        comments_count: 2,
        reprint_cmt_count: 3,
        attitudes_count: 4,
        created_at: created_at.to_string(),
        is_retweet,
    }
}

fn raw(id: &str, created_at: &str, is_retweet: bool) -> RootCardRaw {
    RootCardRaw { scheme: format!("https://example.org/{}", id), mblog: raw_blog(id, created_at, is_retweet) }
}

fn card(created_at: &str) -> RootCard {
    RootCard::try_from(raw("x", created_at, false)).unwrap()
}

fn ids(cards: &[RootCard]) -> Vec<String> {
    cards.iter().map(|c| c.mblog.id.clone()).collect()
}

#[test]
fn normalize_round_trip() {
    let m = MBlog::try_from(raw_blog("7", "Tue Jan 02 10:00:00 +0800 2024", false)).unwrap();
    assert_eq!(m.created_at.offset_seconds, 8 * 3600);
    assert_eq!(m.created_at.year, 2024);
    assert_eq!(m.created_at.month, 1);
    assert_eq!(m.created_at.day, 2);
    assert_eq!(m.created_at.timestamp, 1_704_160_800);
    assert_eq!(m.id, "7");
    assert_eq!(m.attitudes_count, 4);
    let c = RootCard::try_from(raw("7", "Tue Jan 02 10:00:00 +0800 2024", false)).unwrap();
    assert_eq!(c.scheme, "https://example.org/7");
    assert_eq!(sequence(&vec![c]), vec!["1-2-1.png".to_string()]);
}

#[test]
fn normalize_rejects_malformed_time() {
    match MBlog::try_from(raw_blog("1", "2024-01-02 10:00:00", false)) {
        Err(Error::TimestampParse(s)) => assert_eq!(s, "2024-01-02 10:00:00"),
        other => panic!("unexpected {:?}", other),
    }
}

#[test]
fn window_from_days() {
    let w = TimeWindow::new(1_000_000, 2, 3).unwrap();
    assert_eq!(w.recent_boundary, 1_000_000 - 2 * SECONDS_PER_DAY);
    assert_eq!(w.cutoff_boundary, 1_000_000 - 5 * SECONDS_PER_DAY);
    let z = TimeWindow::new(500, 0, 0).unwrap();
    assert_eq!(z.recent_boundary, 500);
    assert_eq!(z.cutoff_boundary, 500);
    assert!(TimeWindow::new(i64::MIN + 10, 1, 0).is_none());
    assert!(TimeWindow::new(0, i64::MAX, 0).is_none());
}

#[test]
fn classify_boundaries_inclusive() {
    let w = TimeWindow { recent_boundary: RECENT, cutoff_boundary: CUTOFF };
    let at_recent = card("Mon Jan 01 00:00:00 +0000 2024");
    let v = classify(&at_recent.mblog, &w);
    assert!(v.keep);
    assert!(!v.cutoff);
    let at_cutoff = card("Mon Dec 25 00:00:00 +0000 2023");
    let v = classify(&at_cutoff.mblog, &w);
    assert!(v.keep);
    assert!(v.cutoff);
    let too_new = card("Mon Jan 01 00:00:01 +0000 2024");
    let v = classify(&too_new.mblog, &w);
    assert!(!v.keep);
    assert!(!v.cutoff);
}

#[test]
fn classify_excludes_shares() {
    let share = RootCard::try_from(raw("s", "Thu Dec 28 12:00:00 +0000 2023", true)).unwrap();
    let v = classify(&share.mblog, &window());
    assert!(!v.keep);
    assert!(!v.cutoff);
    let old_share = RootCard::try_from(raw("t", "Wed Dec 20 12:00:00 +0000 2023", true)).unwrap();
    let v = classify(&old_share.mblog, &window());
    assert!(!v.keep);
    assert!(v.cutoff);
}

#[test]
fn two_page_feed_ends_at_cutoff() {
    let mut c = Collector::new(window(), 10);
    assert_eq!(c.next_page(), PageOutcome::NeedPage(1));
    let page1 = vec![
        raw("a", "Sun Dec 31 12:00:00 +0000 2023", false),
        raw("b", "Thu Dec 28 12:00:00 +0000 2023", false),
    ];
    assert_eq!(c.accept_page(page1).unwrap(), PageOutcome::NeedPage(2));
    let page2 = vec![
        raw("c", "Wed Dec 20 12:00:00 +0000 2023", true),
        raw("d", "Tue Dec 19 12:00:00 +0000 2023", false),
    ];
    assert_eq!(c.accept_page(page2).unwrap(), PageOutcome::Done);
    assert!(c.is_done());
    assert_eq!(c.next_page(), PageOutcome::Done);
    assert_eq!(ids(&c.into_cards()), vec!["a", "b"]);
}

#[test]
fn cutoff_mid_page_skips_the_rest() {
    let mut c = Collector::new(window(), 10);
    let page = vec![
        raw("new", "Fri Jan 05 12:00:00 +0000 2024", false),
        raw("a", "Thu Dec 28 12:00:00 +0000 2023", false),
        raw("old", "Wed Dec 20 12:00:00 +0000 2023", false),
        raw("older", "Tue Dec 19 12:00:00 +0000 2023", false),
        raw("bad", "not a time", false),
    ];
    assert_eq!(c.accept_page(page).unwrap(), PageOutcome::Done);
    assert_eq!(ids(c.cards()), vec!["a", "old"]);
}

#[test]
fn limit_caps_collection() {
    let mut c = Collector::new(window(), 2);
    let page = vec![
        raw("a", "Sun Dec 31 12:00:00 +0000 2023", false),
        raw("s", "Sun Dec 31 11:00:00 +0000 2023", true),
        raw("b", "Sun Dec 31 10:00:00 +0000 2023", false),
        raw("c", "Sun Dec 31 09:00:00 +0000 2023", false),
    ];
    assert_eq!(c.accept_page(page).unwrap(), PageOutcome::Done);
    assert_eq!(ids(c.cards()), vec!["a", "b"]);
}

#[test]
fn empty_page_is_fatal() {
    let mut c = Collector::new(window(), 5);
    let page1 = vec![raw("a", "Sun Dec 31 12:00:00 +0000 2023", false)];
    assert_eq!(c.accept_page(page1).unwrap(), PageOutcome::NeedPage(2));
    assert!(matches!(c.accept_page(Vec::new()), Err(Error::EmptyPage(2))));
    assert!(c.is_done());
    assert_eq!(ids(c.cards()), vec!["a"]);
}

#[test]
fn malformed_post_is_fatal() {
    let mut c = Collector::new(window(), 5);
    let page = vec![
        raw("a", "Sun Dec 31 12:00:00 +0000 2023", false),
        raw("bad", "Sun 31 Dec 2023", false),
        raw("b", "Sun Dec 31 10:00:00 +0000 2023", false),
    ];
    match c.accept_page(page) {
        Err(Error::TimestampParse(s)) => assert_eq!(s, "Sun 31 Dec 2023"),
        other => panic!("unexpected {:?}", other),
    }
    assert!(c.is_done());
    assert_eq!(ids(c.cards()), vec!["a"]);
}

#[test]
fn file_name_layout() {
    assert_eq!(file_name(12, 31, 10), "12-31-10.png");
    assert_eq!(file_name(1, 2, 1), "1-2-1.png");
}

#[test]
fn sequence_counts_per_day() {
    let cards = vec![
        card("Tue Jan 02 10:00:00 +0800 2024"),
        card("Tue Jan 02 09:00:00 +0800 2024"),
        card("Wed Jan 03 09:00:00 +0800 2024"),
        card("Tue Jan 02 08:00:00 +0800 2024"),
        card("Mon Jan 02 08:00:00 +0800 2023"),
    ];
    let names = sequence(&cards);
    assert_eq!(names, vec!["1-2-1.png", "1-2-2.png", "1-3-1.png", "1-2-3.png", "1-2-4.png"]);
    assert_eq!(sequence(&cards), names);
    for i in 0..names.len() {
        for j in 0..names.len() {
            if i != j {
                assert_ne!(names[i], names[j]);
            }
        }
    }
    assert!(sequence(&Vec::new()).is_empty());
}

#[test]
fn sequence_uses_post_offset_date() {
    // 2024-01-02T20:00:00Z is already January 3 at +08:00.
    let cards = vec![card("Wed Jan 03 04:00:00 +0800 2024"), card("Tue Jan 02 20:00:00 +0000 2024")];
    assert_eq!(sequence(&cards), vec!["1-3-1.png", "1-2-1.png"]);
}

fn three_cards() -> Vec<RootCard> {
    vec![
        RootCard::try_from(raw("a", "Sun Dec 31 12:00:00 +0000 2023", false)).unwrap(),
        RootCard::try_from(raw("b", "Sun Dec 31 10:00:00 +0000 2023", false)).unwrap(),
        RootCard::try_from(raw("c", "Sat Dec 30 10:00:00 +0000 2023", false)).unwrap(),
    ]
}

#[test]
fn capture_second_navigation_fails() {
    let cards = three_cards();
    let names = sequence(&cards);
    let mut run = CaptureRun::new(&cards, &names);
    let mut written = Vec::new();
    let mut failed_nav = 0;
    while !run.is_over() {
        match run.action() {
            CaptureAction::Navigate(url) => {
                if url.ends_with("/b") {
                    failed_nav += 1;
                    run.report(CaptureEvent::Failed("timeout".to_string()));
                } else {
                    run.report(CaptureEvent::Succeeded);
                }
            }
            CaptureAction::Wait(secs) => {
                assert_eq!(secs, 3);
                run.report(CaptureEvent::Succeeded);
            }
            CaptureAction::Screenshot => run.report(CaptureEvent::Succeeded),
            CaptureAction::Persist(name) => {
                written.push(name);
                run.report(CaptureEvent::Succeeded);
            }
            CaptureAction::Stop => panic!("stop while running"),
        }
    }
    assert_eq!(failed_nav, 1);
    assert_eq!(written, vec!["12-31-1.png"]);
    assert_eq!(run.persisted(), 1);
    assert!(matches!(run.action(), CaptureAction::Stop));
    match run.into_result() {
        Err(Error::Navigation(m)) => assert_eq!(m, "timeout"),
        other => panic!("unexpected {:?}", other),
    }
}

#[test]
fn capture_all_succeed() {
    let cards = three_cards();
    let names = sequence(&cards);
    let mut run = CaptureRun::new(&cards, &names);
    let mut visited = Vec::new();
    let mut written = Vec::new();
    while !run.is_over() {
        match run.action() {
            CaptureAction::Navigate(url) => visited.push(url),
            CaptureAction::Persist(name) => written.push(name),
            _ => {}
        }
        run.report(CaptureEvent::Succeeded);
    }
    assert_eq!(visited, vec!["https://example.org/a", "https://example.org/b", "https://example.org/c"]);
    assert_eq!(written, vec!["12-31-1.png", "12-31-2.png", "12-30-1.png"]);
    assert_eq!(run.persisted(), 3);
    assert!(run.into_result().is_ok());
}

#[test]
fn capture_screenshot_and_persist_failures() {
    let cards = three_cards();
    let names = sequence(&cards);
    let mut run = CaptureRun::new(&cards, &names);
    run.report(CaptureEvent::Succeeded);
    run.report(CaptureEvent::Succeeded);
    assert!(matches!(run.action(), CaptureAction::Screenshot));
    run.report(CaptureEvent::Failed("no image".to_string()));
    assert_eq!(run.persisted(), 0);
    assert!(matches!(run.into_result(), Err(Error::Capture(_))));

    let mut run = CaptureRun::new(&cards, &names);
    for _ in 0..3 {
        run.report(CaptureEvent::Succeeded);
    }
    run.report(CaptureEvent::Failed("disk full".to_string()));
    assert!(run.is_over());
    assert!(matches!(run.into_result(), Err(Error::Persist(_))));
}

#[test]
fn capture_of_nothing_is_finished() {
    let run = CaptureRun::new(&Vec::new(), &Vec::new());
    assert!(run.is_over());
    assert!(matches!(run.status(), CaptureStatus::Finished));
    assert!(run.into_result().is_ok());
}
