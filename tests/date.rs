use cargo_3ds::date::CommitDate;

#[test]
fn parse_valid_date() {
    let d = CommitDate::parse("2021-10-01").unwrap();
    assert_eq!(d, CommitDate { year: 2021, month: 10, day: 1 });
}

#[test]
fn parse_then_render_gives_same_text() {
    for text in ["2021-10-01", "1999-12-31", "0000-00-00", "2024-02-29"] {
        let d = CommitDate::parse(text).unwrap();
        assert_eq!(d.to_string(), text);
    }
}

#[test]
fn render_pads_with_zeros() {
    let d = CommitDate { year: 7, month: 3, day: 9 };
    assert_eq!(d.to_string(), "0007-03-09");
}

#[test]
fn parse_rejects_malformed() {
    for text in [
        "", "2021-10-1", "2021-1-01", "21-10-01", "2021/10/01", "2021-10-01x", "x2021-10-01",
        "2021-1a-01", "2021-10", "20211001", "2021--10-01", "-021-10-01",
    ] {
        assert!(CommitDate::parse(text).is_none(), "{}", text);
    }
}

#[test]
fn earlier_is_lexicographic() {
    let min = CommitDate { year: 2021, month: 10, day: 1 };
    assert!(CommitDate { year: 2021, month: 9, day: 30 }.is_earlier_than(&min));
    assert!(CommitDate { year: 2020, month: 12, day: 31 }.is_earlier_than(&min));
    assert!(!CommitDate { year: 2021, month: 10, day: 1 }.is_earlier_than(&min));
    assert!(!CommitDate { year: 2021, month: 10, day: 2 }.is_earlier_than(&min));
    assert!(!CommitDate { year: 2022, month: 1, day: 1 }.is_earlier_than(&min));
}
