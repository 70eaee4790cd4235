use vstd::prelude::*;

verus! {

/// The command verbs that RFC 5321 defines.
#[derive(Clone, Copy, Debug, PartialEq, Eq, Structural)]
pub enum Verb {
    Helo,
    Ehlo,
    Mail,
    Rcpt,
    Data,
    Rset,
    Noop,
    Quit,
    Vrfy,
    Expn,
    Help,
}

/// The four upper-case ASCII letters that spell a verb on the wire.
pub open spec fn verb_word(v: Verb) -> Seq<u8> {
    match v {
        Verb::Helo => seq![72, 69, 76, 79],  // HELO
        Verb::Ehlo => seq![69, 72, 76, 79],  // EHLO
        Verb::Mail => seq![77, 65, 73, 76],  // MAIL
        Verb::Rcpt => seq![82, 67, 80, 84],  // RCPT
        Verb::Data => seq![68, 65, 84, 65],  // DATA
        Verb::Rset => seq![82, 83, 69, 84],  // RSET
        Verb::Noop => seq![78, 79, 79, 80],  // NOOP
        Verb::Quit => seq![81, 85, 73, 84],  // QUIT
        Verb::Vrfy => seq![86, 82, 70, 89],  // VRFY
        Verb::Expn => seq![69, 88, 80, 78],  // EXPN
        Verb::Help => seq![72, 69, 76, 80],  // HELP
    }
}

/// The verb that a word spells exactly (verbs are case-sensitive), if any.
pub open spec fn verb_of(w: Seq<u8>) -> Option<Verb> {
    if w == verb_word(Verb::Helo) {
        Some(Verb::Helo)
    } else if w == verb_word(Verb::Ehlo) {
        Some(Verb::Ehlo)
    } else if w == verb_word(Verb::Mail) {
        Some(Verb::Mail)
    } else if w == verb_word(Verb::Rcpt) {
        Some(Verb::Rcpt)
    } else if w == verb_word(Verb::Data) {
        Some(Verb::Data)
    } else if w == verb_word(Verb::Rset) {
        Some(Verb::Rset)
    } else if w == verb_word(Verb::Noop) {
        Some(Verb::Noop)
    } else if w == verb_word(Verb::Quit) {
        Some(Verb::Quit)
    } else if w == verb_word(Verb::Vrfy) {
        Some(Verb::Vrfy)
    } else if w == verb_word(Verb::Expn) {
        Some(Verb::Expn)
    } else if w == verb_word(Verb::Help) {
        Some(Verb::Help)
    } else {
        None
    }
}

/// ASCII whitespace: space, and tab through carriage return.
pub open spec fn is_space(b: u8) -> bool {
    b == 32 || (9 <= b && b <= 13)
}

/// The maximal runs of non-whitespace bytes of a line, in order.
pub open spec fn words(s: Seq<u8>) -> Seq<Seq<u8>>
    decreases s.len(),
{
    if s.len() == 0 {
        seq![]
    } else {
        let prev = words(s.drop_last());
        let b = s.last();
        if is_space(b) {
            prev
        } else if s.len() > 1 && !is_space(s[s.len() - 2]) {
            prev.update(prev.len() - 1, prev.last().push(b))
        } else {
            prev.push(seq![b])
        }
    }
}

/// A line that ends in a non-whitespace byte has at least one word.
pub proof fn lemma_words_nonempty(s: Seq<u8>)
    requires
        s.len() > 0,
        !is_space(s.last()),
    ensures
        words(s).len() > 0,
    decreases s.len(),
{
    if s.len() > 1 && !is_space(s[s.len() - 2]) {
        lemma_words_nonempty(s.drop_last());
    }
}

/// The byte sequences held by a list of words.
pub open spec fn word_views(ws: Seq<Vec<u8>>) -> Seq<Seq<u8>> {
    ws.map_values(|w: Vec<u8>| w@)
}

/// Whether a byte is ASCII whitespace.
pub fn is_space_byte(b: u8) -> (r: bool)
    ensures
        r == is_space(b),
{
    b == 32 || (9 <= b && b <= 13)
}

/// The verb that a word spells, if it spells one.
pub fn parse_verb(w: &[u8]) -> (r: Option<Verb>)
    ensures
        r == verb_of(w@),
{
    if w.len() != 4 {
        return None;
    }
    let (a, b, c, d) = (w[0], w[1], w[2], w[3]);
    assert(w@ =~= seq![a, b, c, d]);
    match (a, b, c, d) {
        (72, 69, 76, 79) => Some(Verb::Helo),  // HELO
        (69, 72, 76, 79) => Some(Verb::Ehlo),  // EHLO
        (77, 65, 73, 76) => Some(Verb::Mail),  // MAIL
        (82, 67, 80, 84) => Some(Verb::Rcpt),  // RCPT
        (68, 65, 84, 65) => Some(Verb::Data),  // DATA
        (82, 83, 69, 84) => Some(Verb::Rset),  // RSET
        (78, 79, 79, 80) => Some(Verb::Noop),  // NOOP
        (81, 85, 73, 84) => Some(Verb::Quit),  // QUIT
        (86, 82, 70, 89) => Some(Verb::Vrfy),  // VRFY
        (69, 88, 80, 78) => Some(Verb::Expn),  // EXPN
        (72, 69, 76, 80) => Some(Verb::Help),  // HELP
        _ => None,
    }
}

/// Splits a line into its whitespace-separated words.
pub fn split_words(line: &[u8]) -> (r: Vec<Vec<u8>>)
    ensures
        word_views(r@) == words(line@),
{
    let mut out: Vec<Vec<u8>> = Vec::new();
    let mut i: usize = 0;
    while i < line.len()
        invariant
            0 <= i <= line.len(),
            word_views(out@) == words(line@.subrange(0, i as int)),
        decreases line.len() - i,
    {
        let ghost prefix = line@.subrange(0, i as int);
        let ghost next = line@.subrange(0, i + 1);
        assert(next.drop_last() =~= prefix);
        let b = line[i];
        if is_space_byte(b) {
        } else if i > 0 && !is_space_byte(line[i - 1]) {
            proof {
                lemma_words_nonempty(prefix);
            }
            let ghost before = word_views(out@);
            let mut last = out.pop().unwrap();
            assert(last@ == before.last());
            last.push(b);
            out.push(last);
            assert(word_views(out@) =~= before.update(before.len() - 1, before.last().push(b)));
        } else {
            let ghost before = word_views(out@);
            let mut w: Vec<u8> = Vec::new();
            w.push(b);
            out.push(w);
            assert(w@ =~= seq![b]);
            assert(word_views(out@) =~= before.push(seq![b]));
        }
        i = i + 1;
    }
    assert(line@.subrange(0, i as int) =~= line@);
    out
}

} // verus!
