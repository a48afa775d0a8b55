use ofborg::output::{
    judge, lines_from_file, partition_attrs, partition_result, stdout_sink, Finished, StdoutSink,
};

fn strings(list: &[&str]) -> Vec<String> {
    list.iter().map(|s| s.to_string()).collect()
}

#[test]
fn lines_lose_what_ends_them() {
    assert_eq!(lines_from_file(b""), strings(&[]));
    assert_eq!(lines_from_file(b"\n"), strings(&[""]));
    assert_eq!(lines_from_file(b"a\nb\n"), strings(&["a", "b"]));
    assert_eq!(lines_from_file(b"a\nb"), strings(&["a", "b"]));
    assert_eq!(lines_from_file(b"a\r\nb\r\r\n"), strings(&["a", "b\r"]));
    assert_eq!(lines_from_file(b"a\r"), strings(&["a\r"]));
    assert_eq!(lines_from_file(b"a\rb\n\n"), strings(&["a\rb", ""]));
}

#[test]
fn lines_that_are_not_utf8_are_left_out() {
    assert_eq!(lines_from_file(b"a\n\xff\nb\n"), strings(&["a", "b"]));
    assert_eq!(lines_from_file(b"\xc3\n\xa4"), strings(&[]));
    assert_eq!(lines_from_file("grö\nße".as_bytes()), strings(&["grö", "ße"]));
    assert_eq!(lines_from_file(b"x\xff\r\nok"), strings(&["ok"]));
}

#[test]
fn logs_in_a_row_read_in_a_row() {
    let mut both = lines_from_file(b"a\nb\n");
    both.extend(lines_from_file(b"c\nd"));
    assert_eq!(lines_from_file(b"a\nb\nc\nd"), both);
}

#[test]
fn reading_agrees_with_buffered_reading() {
    let logs: Vec<&[u8]> = vec![
        b"",
        b"\n\n",
        b"\r\n",
        b"\r",
        b"one\r\ntwo\n\rthree",
        b"bad \xf0\x9f\nnext \xf0\x9f\x98\x80\n",
        b"\xed\xa0\x80\nz",
        b"\xc0\x80\n",
        b"tail\xff",
    ];
    for log in logs {
        let expected: Vec<String> =
            std::io::BufRead::lines(log).filter_map(|line| line.ok()).collect();
        assert_eq!(lines_from_file(log), expected);
    }
}

#[test]
fn results_are_parted_in_order() {
    let results: Vec<Result<u8, char>> = vec![Err('a'), Ok(1), Ok(2), Err('b'), Ok(3)];
    assert_eq!(partition_result(results), (vec![1, 2, 3], vec!['a', 'b']));
    let none: Vec<Result<u8, char>> = vec![];
    assert_eq!(partition_result(none), (vec![], vec![]));
}

#[test]
fn attributes_are_parted_by_outcome() {
    let (good, bad) = partition_attrs(
        strings(&["x", "y", "z", "x"]),
        vec![Err(b"why\nnot\n".to_vec()), Ok(()), Err(b"\xff".to_vec()), Ok(())],
    );
    assert_eq!(good, strings(&["y", "x"]));
    assert_eq!(
        bad,
        vec![("x".to_owned(), strings(&["why", "not"])), ("z".to_owned(), strings(&[]))]
    );
    let all = partition_attrs(strings(&["x", "y"]), vec![Ok(()), Ok(())]);
    assert_eq!(all, (strings(&["x", "y"]), vec![]));
}

#[test]
fn success_and_failure_keep_the_log() {
    assert_eq!(judge(Finished { success: true, log: 7 }), Ok(7));
    assert_eq!(judge(Finished { success: false, log: 7 }), Err(7));
    assert_eq!(stdout_sink(true), StdoutSink::Log);
    assert_eq!(stdout_sink(false), StdoutSink::Null);
}
