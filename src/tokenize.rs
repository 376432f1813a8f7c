use vstd::prelude::*;

verus! {

/// The ASCII whitespace characters: space, tab, line feed, form feed and
/// carriage return.
pub open spec fn is_space(c: char) -> bool {
    c == ' ' || c == '\t' || c == '\n' || c == '\x0C' || c == '\r'
}

/// The whitespace-delimited tokens of `s`, in order: the maximal runs of
/// non-whitespace characters. Nothing is quoted or escaped.
pub open spec fn tokens(s: Seq<char>) -> Seq<Seq<char>>
    decreases s.len(),
{
    if s.len() == 0 {
        Seq::empty()
    } else {
        let rest = tokens(s.drop_last());
        let c = s.last();
        if is_space(c) {
            rest
        } else if s.len() >= 2 && !is_space(s[s.len() - 2]) {
            rest.update(rest.len() - 1, rest.last().push(c))
        } else {
            rest.push(seq![c])
        }
    }
}

/// The character views of a sequence of strings.
pub open spec fn views(v: Seq<String>) -> Seq<Seq<char>> {
    v.map_values(|t: String| t@)
}

/// Whether `c` is ASCII whitespace.
pub fn is_space_char(c: char) -> (r: bool)
    ensures
        r == is_space(c),
{
    c == ' ' || c == '\t' || c == '\n' || c == '\x0C' || c == '\r'
}

proof fn lemma_tokens_step(s: Seq<char>, i: int)
    requires
        0 <= i < s.len(),
    ensures
        s.take(i + 1).drop_last() == s.take(i),
        s.take(i + 1).last() == s[i],
        i >= 1 ==> s.take(i + 1)[i - 1] == s[i - 1],
{
    assert(s.take(i + 1).drop_last() =~= s.take(i));
}

/// Splits `input` on runs of ASCII whitespace, dropping empty pieces.
pub fn split_tokens(input: &str) -> (r: Vec<String>)
    ensures
        views(r@) == tokens(input@),
{
    let n = input.unicode_len();
    let mut toks: Vec<String> = Vec::new();
    let mut start: usize = 0;
    let mut in_tok: bool = false;
    let mut i: usize = 0;
    while i < n
        invariant
            n == input@.len(),
            0 <= start <= i <= n,
            in_tok ==> start < i && !is_space(input@[i - 1]) && views(toks@).push(
                input@.subrange(start as int, i as int),
            ) == tokens(input@.take(i as int)),
            !in_tok ==> (i >= 1 ==> is_space(input@[i - 1])) && views(toks@) == tokens(
                input@.take(i as int),
            ),
        decreases n - i,
    {
        let c = input.get_char(i);
        proof {
            lemma_tokens_step(input@, i as int);
        }
        let ghost before = toks@;
        if is_space_char(c) {
            if in_tok {
                let piece = input.substring_char(start, i);
                toks.push(String::from_str(piece));
                assert(views(toks@) =~= views(before).push(piece@));
                in_tok = false;
            }
        } else {
            if in_tok {
                let ghost t = tokens(input@.take(i as int));
                assert(input@.subrange(start as int, i as int + 1) =~= input@.subrange(
                    start as int,
                    i as int,
                ).push(c));
                assert(views(before).push(input@.subrange(start as int, i as int + 1)) =~= t.update(
                    t.len() - 1,
                    t.last().push(c),
                ));
            } else {
                start = i;
                assert(input@.subrange(start as int, i as int + 1) =~= seq![c]);
                assert(views(before).push(input@.subrange(start as int, i as int + 1)) =~= views(
                    before,
                ).push(seq![c]));
            }
            in_tok = true;
        }
        i = i + 1;
    }
    assert(input@.take(n as int) =~= input@);
    if in_tok {
        let piece = input.substring_char(start, n);
        let ghost before = toks@;
        toks.push(String::from_str(piece));
        assert(views(toks@) =~= views(before).push(piece@));
    }
    toks
}

/// A line made only of whitespace, the empty line among them, has no
/// tokens, so dispatching it names no command.
pub proof fn lemma_blank_line_has_no_tokens(s: Seq<char>)
    requires
        forall|i: int| 0 <= i < s.len() ==> is_space(#[trigger] s[i]),
    ensures
        tokens(s).len() == 0,
    decreases s.len(),
{
    if s.len() > 0 {
        lemma_blank_line_has_no_tokens(s.drop_last());
    }
}

} // verus!
