//! A miniature grep: a parsed configuration, a verified line splitter and
//! substring search, and a case-insensitive variant on top of them.

use vstd::prelude::*;
use vstd::string::*;

verus! {

pub struct Config {
    pub query: String,
    pub filename: String,
    pub case_sensitive: bool,
}

impl Config {
    /// Reads the query and the file name out of the command-line arguments
    /// `[program, query, filename, ...]`. Whether the search is case-sensitive
    /// is handed in by the caller, which traditionally reads it from the
    /// environment.
    pub fn new(args: &[String], case_sensitive: bool) -> (r: Result<Config, &'static str>)
        ensures
            args@.len() < 3 ==> match r {
                Ok(_) => false,
                Err(e) => e@ == "not enough 参数"@,
            },
            args@.len() >= 3 ==> match r {
                Ok(c) => {
                    &&& c.query@ == args@[1]@
                    &&& c.filename@ == args@[2]@
                    &&& c.case_sensitive == case_sensitive
                },
                Err(_) => false,
            },
    {
        if args.len() < 3 {
            return Err("not enough 参数");
        }
        let query = args[1].clone();
        let filename = args[2].clone();
        Ok(Config { query, filename, case_sensitive })
    }
}

/// `needle` stands in `hay` at position `i`.
pub open spec fn contains_at(hay: Seq<char>, needle: Seq<char>, i: int) -> bool {
    &&& 0 <= i
    &&& i + needle.len() <= hay.len()
    &&& hay.subrange(i, i + needle.len()) == needle
}

/// `needle` stands somewhere in `hay`; an empty needle stands everywhere.
pub open spec fn contains_str(hay: Seq<char>, needle: Seq<char>) -> bool {
    exists|i: int| contains_at(hay, needle, i)
}

/// Whether `needle` occurs anywhere in `hay`, by checking every position.
pub fn contains_substr(hay: &str, needle: &str) -> (b: bool)
    ensures
        b == contains_str(hay@, needle@),
{
    let n = hay.unicode_len();
    let m = needle.unicode_len();
    if m > n {
        return false;
    }
    let mut i: usize = 0;
    while i <= n - m
        invariant
            m <= n == hay@.len(),
            m == needle@.len(),
            0 <= i <= n - m + 1,
            forall|k: int| 0 <= k < i ==> !contains_at(hay@, needle@, k),
        decreases n + 1 - m - i,
    {
        let mut j: usize = 0;
        while j < m && hay.get_char(i + j) == needle.get_char(j)
            invariant
                m <= n == hay@.len(),
                m == needle@.len(),
                0 <= i <= n - m,
                0 <= j <= m,
                forall|l: int| 0 <= l < j ==> hay@[i + l] == needle@[l],
            decreases m - j,
        {
            j = j + 1;
        }
        if j == m {
            proof {
                assert(hay@.subrange(i as int, i as int + m as int) =~= needle@);
                assert(contains_at(hay@, needle@, i as int));
            }
            return true;
        }
        proof {
            assert(!contains_at(hay@, needle@, i as int)) by {
                if contains_at(hay@, needle@, i as int) {
                    assert(hay@.subrange(i as int, i as int + m as int)[j as int] == needle@[
                        j as int
                    ]);
                }
            }
        }
        i = i + 1;
    }
    proof {
        assert(!contains_str(hay@, needle@)) by {
            if contains_str(hay@, needle@) {
                let k = choose|k: int| contains_at(hay@, needle@, k);
                assert(k < i);
            }
        }
    }
    false
}

/// A line with its trailing carriage return removed, as the line splitter
/// removes it before a newline.
pub open spec fn strip_cr(l: Seq<char>) -> Seq<char> {
    if l.len() > 0 && l.last() == '\r' {
        l.drop_last()
    } else {
        l
    }
}

/// The text split into lines: lines end at `'\n'` or `"\r\n"`, and the
/// final line ending is optional.
pub open spec fn split_lines(s: Seq<char>) -> Seq<Seq<char>>
    decreases s.len(),
    via split_lines_dec
{
    if s.len() == 0 {
        Seq::empty()
    } else {
        match s.index_of_first('\n') {
            Option::None => seq![s],
            Option::Some(i) => seq![strip_cr(s.subrange(0, i))] + split_lines(
                s.subrange(i + 1, s.len() as int),
            ),
        }
    }
}

#[via_fn]
proof fn split_lines_dec(s: Seq<char>) {
    if s.len() > 0 {
        s.index_of_first_ensures('\n');
    }
}

/// If position `i` holds the first newline of `s`, the split takes the text
/// up to `i` as one line and splits the rest behind it.
proof fn lemma_split_lines_at(s: Seq<char>, i: int)
    requires
        0 <= i < s.len(),
        s[i] == '\n',
        forall|j: int| 0 <= j < i ==> s[j] != '\n',
    ensures
        split_lines(s) == seq![strip_cr(s.subrange(0, i))] + split_lines(
            s.subrange(i + 1, s.len() as int),
        ),
{
    s.index_of_first_ensures('\n');
    match s.index_of_first('\n') {
        Option::None => {
            assert(!s.contains('\n'));
            assert(s.contains('\n')) by {
                assert(s[i] == '\n');
            }
        },
        Option::Some(k) => {
            if k < i {
                assert(s[k] != '\n');
            }
            if k > i {
                assert(s[i] != '\n');
            }
            assert(k == i);
        },
    }
}

/// Text without a newline is one single line.
proof fn lemma_split_lines_whole(s: Seq<char>)
    requires
        s.len() > 0,
        forall|j: int| 0 <= j < s.len() ==> s[j] != '\n',
    ensures
        split_lines(s) == seq![s],
{
    s.index_of_first_ensures('\n');
    match s.index_of_first('\n') {
        Option::None => {
        },
        Option::Some(k) => {
            assert(s[k] != '\n');
        },
    }
}

/// The text split into lines, each borrowed from `contents`.
pub fn lines_of<'a>(contents: &'a str) -> (v: Vec<&'a str>)
    ensures
        v.deep_view() == split_lines(contents@),
{
    let n = contents.unicode_len();
    let mut v: Vec<&'a str> = Vec::new();
    let mut start: usize = 0;
    let mut i: usize = 0;
    proof {
        assert(contents@.subrange(0, n as int) =~= contents@);
        assert(v.deep_view() =~= Seq::<Seq<char>>::empty());
        assert(v.deep_view() + split_lines(contents@) =~= split_lines(contents@));
    }
    while i < n
        invariant
            0 <= start <= i <= n == contents@.len(),
            split_lines(contents@) == v.deep_view() + split_lines(
                contents@.subrange(start as int, n as int),
            ),
            forall|k: int| start <= k < i ==> contents@[k] != '\n',
        decreases n - i,
    {
        if contents.get_char(i) == '\n' {
            let end = if i > start && contents.get_char(i - 1) == '\r' {
                i - 1
            } else {
                i
            };
            let line = contents.substring_char(start, end);
            proof {
                let tail = contents@.subrange(start as int, n as int);
                let ir = i - start;
                assert forall|j: int| 0 <= j < ir implies tail[j] != '\n' by {
                    assert(tail[j] == contents@[start + j]);
                }
                assert(tail[ir] == contents@[i as int]);
                lemma_split_lines_at(tail, ir);
                assert(tail.subrange(0, ir) =~= contents@.subrange(start as int, i as int));
                assert(tail.subrange(ir + 1, tail.len() as int) =~= contents@.subrange(
                    i as int + 1,
                    n as int,
                ));
                if i > start && contents@[i as int - 1] == '\r' {
                    assert(strip_cr(tail.subrange(0, ir)) =~= contents@.subrange(
                        start as int,
                        i as int - 1,
                    ));
                } else {
                    assert(strip_cr(tail.subrange(0, ir)) =~= contents@.subrange(
                        start as int,
                        i as int,
                    ));
                }
                let old_dv = v.deep_view();
                assert(old_dv.push(line@) + split_lines(
                    contents@.subrange(i as int + 1, n as int),
                ) =~= old_dv + split_lines(tail));
            }
            let ghost old_dv = v.deep_view();
            v.push(line);
            proof {
                assert(v.deep_view() =~= old_dv.push(line@));
            }
            start = i + 1;
        }
        i = i + 1;
    }
    if start < n {
        let line = contents.substring_char(start, n);
        let ghost old_dv = v.deep_view();
        proof {
            let tail = contents@.subrange(start as int, n as int);
            assert forall|j: int| 0 <= j < tail.len() implies tail[j] != '\n' by {
                assert(tail[j] == contents@[start + j]);
            }
            lemma_split_lines_whole(tail);
            assert(line@ == tail);
            assert(old_dv + seq![tail] =~= old_dv.push(line@));
        }
        v.push(line);
        proof {
            assert(v.deep_view() =~= old_dv.push(line@));
        }
    } else {
        proof {
            assert(contents@.subrange(start as int, n as int).len() == 0);
            assert(v.deep_view() + split_lines(contents@.subrange(start as int, n as int)) =~= v.deep_view());
        }
    }
    v
}

/// The lines that contain the query, in order.
pub open spec fn matching(lines: Seq<Seq<char>>, query: Seq<char>) -> Seq<Seq<char>>
    decreases lines.len(),
{
    if lines.len() == 0 {
        Seq::empty()
    } else if contains_str(lines.last(), query) {
        matching(lines.drop_last(), query).push(lines.last())
    } else {
        matching(lines.drop_last(), query)
    }
}

/// The lines that contain the query once both are lowered, in order;
/// `query_lower` is the query already lowered.
pub open spec fn matching_ci(lines: Seq<Seq<char>>, query_lower: Seq<char>) -> Seq<Seq<char>>
    decreases lines.len(),
{
    if lines.len() == 0 {
        Seq::empty()
    } else if contains_str(lower_of(lines.last()), query_lower) {
        matching_ci(lines.drop_last(), query_lower).push(lines.last())
    } else {
        matching_ci(lines.drop_last(), query_lower)
    }
}

/// What lowercasing a text yields; the characters of the input alone
/// determine it.
pub uninterp spec fn lower_of(s: Seq<char>) -> Seq<char>;

/// Relies on str::to_lowercase: the lowercase version of the text,
/// a function of the input characters alone.
#[verifier::external_body]
fn lowercase(s: &str) -> (r: String)
    ensures
        r@ == lower_of(s@),
{
    s.to_lowercase()
}

/// The lines of `contents` that contain `query`.
pub fn search<'a>(query: &str, contents: &'a str) -> (r: Vec<&'a str>)
    ensures
        r.deep_view() == matching(split_lines(contents@), query@),
{
    let lines = lines_of(contents);
    let mut results: Vec<&'a str> = Vec::new();
    let mut k: usize = 0;
    while k < lines.len()
        invariant
            0 <= k <= lines@.len(),
            lines.deep_view() == split_lines(contents@),
            results.deep_view() == matching(lines.deep_view().take(k as int), query@),
        decreases lines@.len() - k,
    {
        let line = lines[k];
        let ghost old_dv = results.deep_view();
        let hit = contains_substr(line, query);
        proof {
            let lv = lines.deep_view();
            assert(lv[k as int] == lines@[k as int]@);
            assert(lv.take(k as int + 1).drop_last() =~= lv.take(k as int));
            assert(lv.take(k as int + 1).last() == lv[k as int]);
        }
        if hit {
            results.push(line);
            proof {
                assert(results.deep_view() =~= old_dv.push(line@));
            }
        }
        k = k + 1;
    }
    proof {
        assert(lines.deep_view().take(lines@.len() as int) =~= lines.deep_view());
    }
    results
}

/// The lines of `contents` that contain `query` when the case of both is
/// ignored, i.e. when both are lowered first.
pub fn search_case_insensitive<'a>(query: &str, contents: &'a str) -> (r: Vec<&'a str>)
    ensures
        r.deep_view() == matching_ci(split_lines(contents@), lower_of(query@)),
{
    let query_lower = lowercase(query);
    let lines = lines_of(contents);
    let mut results: Vec<&'a str> = Vec::new();
    let mut k: usize = 0;
    while k < lines.len()
        invariant
            0 <= k <= lines@.len(),
            lines.deep_view() == split_lines(contents@),
            query_lower@ == lower_of(query@),
            results.deep_view() == matching_ci(lines.deep_view().take(k as int), lower_of(query@)),
        decreases lines@.len() - k,
    {
        let line = lines[k];
        let ghost old_dv = results.deep_view();
        let line_lower = lowercase(line);
        let hit = contains_substr(line_lower.as_str(), query_lower.as_str());
        proof {
            let lv = lines.deep_view();
            assert(lv[k as int] == lines@[k as int]@);
            assert(lv.take(k as int + 1).drop_last() =~= lv.take(k as int));
            assert(lv.take(k as int + 1).last() == lv[k as int]);
        }
        if hit {
            results.push(line);
            proof {
                assert(results.deep_view() =~= old_dv.push(line@));
            }
        }
        k = k + 1;
    }
    proof {
        assert(lines.deep_view().take(lines@.len() as int) =~= lines.deep_view());
    }
    results
}

/// The search the program performs once the file has been read: one of
/// the two searches above, as the configuration says.
pub fn run_search<'a>(config: &Config, contents: &'a str) -> (r: Vec<&'a str>)
    ensures
        config.case_sensitive ==> r.deep_view() == matching(
            split_lines(contents@),
            config.query@,
        ),
        !config.case_sensitive ==> r.deep_view() == matching_ci(
            split_lines(contents@),
            lower_of(config.query@),
        ),
{
    if config.case_sensitive {
        search(config.query.as_str(), contents)
    } else {
        search_case_insensitive(config.query.as_str(), contents)
    }
}

} // verus!
