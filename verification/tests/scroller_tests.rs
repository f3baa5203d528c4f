use rcon_client::scroller::{LineChunk, Scroller};

#[test]
fn test_scrolling() {
    let mut scroller = Scroller::new();
    let lines = vec![
        "effect give @s minecraft:strength 1 244",
        "effect give @a minecraft:slowness 1 233",
        "tp @s Notch",
        "list",
    ];

    lines.iter().for_each(|line| scroller.add_line(line.to_string()));

    assert_eq!(scroller.index, 3);
    assert_eq!(scroller.prev(), Some(()));
    assert_eq!(scroller.index, 2);
}

#[test]
fn test_line_segmentation() {
    let line = "this is a line yeah alright".to_string();
    let length = 10;

    let expected = vec![
        "this is a ".to_string(),
        "line yeah ".to_string(),
        "alright".to_string(),
    ];

    let chunks = LineChunk::segment(&line, length, 0);
    let strings = chunks.iter().map(|c| c.chunk.clone()).collect::<Vec<String>>();

    chunks.iter().for_each(|chunk| assert_eq!(chunk.line, 0));
    assert_eq!(expected, strings);
}

#[test]
fn test_lines_segmentation() {
    let lines = vec![
        "effect give @s minecraft:strength 1 244",
        "effect give @a minecraft:slowness 1 233",
        "tp @s Notch",
        "list",
    ].iter().map(|line| line.to_string())
        .collect::<Vec<String>>();
    let mut scroller = Scroller::new();
    scroller.lines = lines;
    scroller.render_lines(10);
    let buffer_lines = scroller.buffer
        .iter()
        .map(|line| line.chunk.clone())
        .collect::<Vec<String>>();
    let expected = vec![
        "effect giv",
        "e @s minec",
        "raft:stren",
        "gth 1 244",
        "effect giv",
        "e @a minec",
        "raft:slown",
        "ess 1 233",
        "tp @s Notc",
        "h",
        "list",
    ].iter().map(|e| e.to_string()).collect::<Vec<String>>();
    assert_eq!(expected, buffer_lines);

    let buffer_line_nums = scroller.buffer
        .iter()
        .map(|line| line.line)
        .collect::<Vec<usize>>();
    let expected = vec![0, 0, 0, 0, 1, 1, 1, 1, 2, 2, 3];
    assert_eq!(expected, buffer_line_nums);
}

fn texts(chunks: &[LineChunk]) -> Vec<String> {
    chunks.iter().map(|c| c.chunk.clone()).collect()
}

#[test]
fn segment_edge_cases() {
    assert_eq!(LineChunk::segment("", 10, 0).len(), 0);
    assert_eq!(texts(&LineChunk::segment("abc", 3, 4)), vec!["abc"]);
    assert_eq!(texts(&LineChunk::segment("abcd", 3, 4)), vec!["abc", "d"]);
    assert_eq!(texts(&LineChunk::segment("abcdef", 3, 4)), vec!["abc", "def"]);
    assert_eq!(texts(&LineChunk::segment("abc", 1, 4)), vec!["a", "b", "c"]);
    assert_eq!(texts(&LineChunk::segment("abc", usize::MAX, 4)), vec!["abc"]);
    for chunk in LineChunk::segment("abcdefg", 3, 4) {
        assert_eq!(chunk.line, 4);
        assert_eq!(chunk.width, 3);
    }
}

#[test]
fn segment_counts_characters() {
    let chunks = LineChunk::segment("h\u{e9}llo w\u{f6}rld", 4, 1);
    assert_eq!(texts(&chunks), vec!["h\u{e9}ll", "o w\u{f6}", "rld"]);
}

#[test]
fn segment_pieces_rejoin() {
    let line = "the quick brown fox jumps over the lazy dog";
    for width in 1..50 {
        let chunks = LineChunk::segment(line, width, 0);
        assert_eq!(chunks.len(), (line.len() + width - 1) / width);
        assert_eq!(texts(&chunks).concat(), line);
        for (k, chunk) in chunks.iter().enumerate() {
            if k + 1 < chunks.len() {
                assert_eq!(chunk.chunk.len(), width);
            } else {
                assert!(chunk.chunk.len() <= width);
                assert!(chunk.chunk.len() > 0);
            }
        }
    }
}

#[test]
fn render_counts_per_line() {
    let mut scroller = Scroller::new();
    for len in [40, 40, 11, 4] {
        scroller.add_line("x".repeat(len));
    }
    let tags: Vec<usize> = scroller.render_lines(10).iter().map(|c| c.line).collect();
    assert_eq!(tags, vec![0, 0, 0, 0, 1, 1, 1, 1, 2, 2, 3]);
    let lens: Vec<usize> = scroller.buffer.iter().map(|c| c.chunk.len()).collect();
    assert_eq!(lens, vec![10, 10, 10, 10, 10, 10, 10, 10, 10, 1, 4]);
}

#[test]
fn render_skips_empty_lines() {
    let mut scroller = Scroller::new();
    scroller.add_line("".to_string());
    scroller.add_line("ab".to_string());
    scroller.add_line("".to_string());
    let tags: Vec<usize> = scroller.render_lines(5).iter().map(|c| c.line).collect();
    assert_eq!(tags, vec![1]);
}

#[test]
fn render_again_at_another_width() {
    let mut scroller = Scroller::new();
    for len in [40, 40, 11, 4] {
        scroller.add_line("x".repeat(len));
    }
    assert_eq!(scroller.render_lines(10).len(), 11);
    assert_eq!(scroller.render_lines(12).len(), 10);
    let widths: Vec<usize> = scroller.buffer.iter().map(|c| c.width).collect();
    assert_eq!(widths, vec![12; 10]);
    assert_eq!(scroller.render_lines(10).len(), 11);
}

#[test]
fn render_at_a_width_that_equals_the_first_line() {
    let mut scroller = Scroller::new();
    scroller.add_line("abcde".to_string());
    scroller.add_line("abcdefghijklmno".to_string());
    assert_eq!(texts(scroller.render_lines(20)), vec!["abcde", "abcdefghijklmno"]);
    assert_eq!(texts(scroller.render_lines(5)), vec!["abcde", "abcde", "fghij", "klmno"]);
}

#[test]
fn render_same_width_keeps_the_pieces() {
    let mut scroller = Scroller::new();
    scroller.add_line("abcdefgh".to_string());
    assert_eq!(texts(scroller.render_lines(3)), vec!["abc", "def", "gh"]);
    assert_eq!(texts(scroller.render_lines(3)), vec!["abc", "def", "gh"]);
    // the pieces that are kept are handed out as they are
    scroller.buffer[0].chunk = "xyz".to_string();
    assert_eq!(texts(scroller.render_lines(3)), vec!["xyz", "def", "gh"]);
    assert_eq!(texts(scroller.render_lines(4)), vec!["abcd", "efgh"]);
}

#[test]
fn added_line_shows_once_the_lines_are_cut_anew() {
    let mut scroller = Scroller::new();
    scroller.add_line("abcdefgh".to_string());
    assert_eq!(texts(scroller.render_lines(3)), vec!["abc", "def", "gh"]);
    scroller.add_line("ij".to_string());
    assert_eq!(scroller.index, 1);
    assert_eq!(texts(&scroller.buffer), vec!["abc", "def", "gh"]);
    assert_eq!(texts(scroller.render_lines(3)), vec!["abc", "def", "gh"]);
    let tags: Vec<usize> = scroller.render_lines(4).iter().map(|c| c.line).collect();
    assert_eq!(tags, vec![0, 0, 1]);
    assert_eq!(texts(&scroller.buffer), vec!["abcd", "efgh", "ij"]);
}

#[test]
fn scroller_cursor_bounds() {
    let mut scroller = Scroller::default();
    assert_eq!(scroller.index, 0);
    assert_eq!(scroller.next(), None);
    for line in ["a", "b", "c"] {
        scroller.add_line(line.to_string());
    }
    assert_eq!(scroller.index, 2);
    assert_eq!(scroller.next(), None);
    assert_eq!(scroller.index, 3);
    assert_eq!(scroller.next(), None);
    assert_eq!(scroller.index, 3);
    assert_eq!(scroller.prev(), Some(()));
    assert_eq!(scroller.prev(), Some(()));
    assert_eq!(scroller.prev(), Some(()));
    assert_eq!(scroller.index, 0);
    assert_eq!(scroller.prev(), None);
    assert_eq!(scroller.index, -1);
    assert_eq!(scroller.prev(), None);
    assert_eq!(scroller.index, -1);
    assert_eq!(scroller.next(), Some(()));
    assert_eq!(scroller.index, 0);
}

#[test]
fn width_zero_fits_nothing() {
    assert_eq!(LineChunk::segment("abc", 0, 0).len(), 0);
    let mut scroller = Scroller::new();
    scroller.add_line("abc".to_string());
    assert_eq!(scroller.render_lines(0).len(), 0);
    assert_eq!(texts(scroller.render_lines(2)), vec!["ab", "c"]);
}
