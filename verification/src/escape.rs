use vstd::prelude::*;
use vstd::string::*;

verus! {

/// Whether serializing literal text must replace this character by a
/// two-character backslash sequence.
pub open spec fn needs_escape(c: char) -> bool {
    ||| c == '\t'
    ||| c == '\u{08}'
    ||| c == '\n'
    ||| c == '\r'
    ||| c == '\u{0C}'
    ||| c == '\\'
    ||| c == '\''
    ||| c == '"'
}

/// The character written after the backslash when `c` is escaped.
pub open spec fn escape_mark(c: char) -> char {
    if c == '\t' {
        't'
    } else if c == '\u{08}' {
        'b'
    } else if c == '\n' {
        'n'
    } else if c == '\r' {
        'r'
    } else if c == '\u{0C}' {
        'f'
    } else {
        c
    }
}

/// The serialized form of one character: itself, or backslash followed
/// by its escape mark.
pub open spec fn escape_char(c: char) -> Seq<char> {
    if needs_escape(c) {
        seq!['\\', escape_mark(c)]
    } else {
        seq![c]
    }
}

/// The serialized form of a whole text: each character replaced by its
/// serialized form, in order.
pub open spec fn escaped(s: Seq<char>) -> Seq<char>
    decreases s.len(),
{
    if s.len() == 0 {
        Seq::empty()
    } else {
        escape_char(s[0]) + escaped(s.drop_first())
    }
}

proof fn lemma_escaped_push(s: Seq<char>, c: char)
    ensures
        escaped(s.push(c)) == escaped(s) + escape_char(c),
    decreases s.len(),
{
    if s.len() == 0 {
        assert(s.push(c).drop_first() =~= Seq::<char>::empty());
        assert(escaped(s.push(c)) == escape_char(c) + escaped(Seq::<char>::empty()));
        assert(escaped(Seq::<char>::empty()) == Seq::<char>::empty());
        assert(escape_char(c) + Seq::<char>::empty() =~= escape_char(c));
        assert(escaped(s) == Seq::<char>::empty());
        assert(Seq::<char>::empty() + escape_char(c) =~= escape_char(c));
    } else {
        assert(s.push(c).drop_first() =~= s.drop_first().push(c));
        lemma_escaped_push(s.drop_first(), c);
        assert(escaped(s.push(c)) =~= escaped(s) + escape_char(c));
    }
}

/// Escaping touches only the escape-sensitive characters: text without
/// any of them is left exactly as it was.
pub proof fn lemma_escape_identity(s: Seq<char>)
    requires
        forall|i: int| 0 <= i < s.len() ==> !needs_escape(s[i]),
    ensures
        escaped(s) == s,
    decreases s.len(),
{
    if s.len() == 0 {
        assert(escaped(s) =~= s);
    } else {
        lemma_escape_identity(s.drop_first());
        assert(escaped(s) =~= s);
    }
}

/// Escaping is applied character by character, in order: the serialized
/// form of a concatenation is the concatenation of the serialized
/// forms, so earlier text is never reordered past later text.
pub proof fn lemma_escaped_append(a: Seq<char>, b: Seq<char>)
    ensures
        escaped(a + b) == escaped(a) + escaped(b),
    decreases a.len(),
{
    if a.len() == 0 {
        assert(a + b =~= b);
        assert(escaped(a) + escaped(b) =~= escaped(b));
    } else {
        assert((a + b).drop_first() =~= a.drop_first() + b);
        lemma_escaped_append(a.drop_first(), b);
        assert(escaped(a + b) =~= escaped(a) + escaped(b));
    }
}

/// Each character escapes to one or two characters, so the serialized
/// form is never shorter than the text and at most twice as long.
pub proof fn lemma_escaped_len(s: Seq<char>)
    ensures
        s.len() <= escaped(s).len() <= 2 * s.len(),
    decreases s.len(),
{
    if s.len() > 0 {
        lemma_escaped_len(s.drop_first());
    }
}


/// The state of the character transform: nothing left to emit, one
/// literal character left, or a backslash and then its mark.
pub enum EscapeRdfState {
    Done,
    Char(char),
    Backslash(char),
}

/// The restartable, character-by-character escape transform: built for
/// one character, it hands out the one or two characters of that
/// character's serialized form, one per step, and can be dropped and
/// rebuilt at any character boundary.
pub struct EscapeRDF {
    state: EscapeRdfState,
}

impl EscapeRDF {
    /// The characters this transform has still to emit.
    pub closed spec fn remaining(self) -> Seq<char> {
        match self.state {
            EscapeRdfState::Done => Seq::empty(),
            EscapeRdfState::Char(c) => seq![c],
            EscapeRdfState::Backslash(m) => seq!['\\', m],
        }
    }

    /// Starts the transform for one character: it will emit exactly
    /// that character's serialized form.
    pub fn new(c: char) -> (r: EscapeRDF)
        ensures
            r.remaining() == escape_char(c),
    {
        let state = if c == '\t' {
            EscapeRdfState::Backslash('t')
        } else if c == '\u{08}' {
            EscapeRdfState::Backslash('b')
        } else if c == '\n' {
            EscapeRdfState::Backslash('n')
        } else if c == '\r' {
            EscapeRdfState::Backslash('r')
        } else if c == '\u{0C}' {
            EscapeRdfState::Backslash('f')
        } else if c == '\\' || c == '\'' || c == '"' {
            EscapeRdfState::Backslash(c)
        } else {
            EscapeRdfState::Char(c)
        };
        let r = EscapeRDF { state };
        proof {
            assert(r.remaining() =~= escape_char(c));
        }
        r
    }

    /// Emits the next character of the serialized form, or nothing
    /// once it is exhausted.
    pub fn next(&mut self) -> (r: Option<char>)
        ensures
            old(self).remaining().len() == 0 ==> r is None && final(self).remaining()
                == old(self).remaining(),
            old(self).remaining().len() > 0 ==> r == Some(old(self).remaining()[0])
                && final(self).remaining() == old(self).remaining().drop_first(),
    {
        match self.state {
            EscapeRdfState::Backslash(m) => {
                self.state = EscapeRdfState::Char(m);
                proof {
                    assert(old(self).remaining().drop_first() =~= self.remaining());
                }
                Some('\\')
            }
            EscapeRdfState::Char(c) => {
                self.state = EscapeRdfState::Done;
                proof {
                    assert(old(self).remaining().drop_first() =~= self.remaining());
                }
                Some(c)
            }
            EscapeRdfState::Done => None,
        }
    }

    /// How many characters are left to emit: none, one or two.
    pub fn len(&self) -> (r: usize)
        ensures
            r == self.remaining().len(),
    {
        match self.state {
            EscapeRdfState::Done => 0,
            EscapeRdfState::Char(_) => 1,
            EscapeRdfState::Backslash(_) => 2,
        }
    }
}

/// Relies on the standard library's `collect` for `String`: it joins
/// the characters of the iterator in order into one string.
#[verifier::external_body]
fn chars_to_string(chars: &Vec<char>) -> (r: String)
    ensures
        r@ == chars@,
{
    chars.iter().collect()
}

/// Escapes a text for serialized output: tab, backspace, newline,
/// carriage return, form feed, backslash and both quote characters
/// become two-character backslash sequences; everything else is kept.
pub fn escape_str(s: &str) -> (r: String)
    ensures
        r@ == escaped(s@),
{
    let n = s.unicode_len();
    let mut out: Vec<char> = Vec::new();
    let mut i: usize = 0;
    while i < n
        invariant
            i <= n,
            n == s@.len(),
            out@ == escaped(s@.subrange(0, i as int)),
        decreases n - i,
    {
        let c = s.get_char(i);
        let mut step = EscapeRDF::new(c);
        loop
            invariant_except_break
                out@ + step.remaining() == escaped(s@.subrange(0, i as int)) + escape_char(
                    s@[i as int],
                ),
            ensures
                out@ == escaped(s@.subrange(0, i as int)) + escape_char(s@[i as int]),
            decreases step.remaining().len(),
        {
            match step.next() {
                Some(ch) => out.push(ch),
                None => {
                    proof {
                        assert(out@ + step.remaining() =~= out@);
                    }
                    break ;
                }
            }
        }
        proof {
            assert(s@.subrange(0, i + 1 as int) =~= s@.subrange(0, i as int).push(s@[i as int]));
            lemma_escaped_push(s@.subrange(0, i as int), s@[i as int]);
        }
        i = i + 1;
    }
    proof {
        assert(s@.subrange(0, n as int) =~= s@);
    }
    chars_to_string(&out)
}

/// Text that escapes into its serialized form.
pub trait Escaper {
    /// The characters of the text.
    spec fn text(&self) -> Seq<char>;

    /// The serialized, escape-coded form of the text.
    fn escape(&self) -> (r: String)
        ensures
            r@ == escaped(self.text()),
    ;
}

impl<'a> Escaper for &'a str {
    open spec fn text(&self) -> Seq<char> {
        self@
    }

    fn escape(&self) -> (r: String) {
        escape_str(self)
    }
}

impl Escaper for String {
    open spec fn text(&self) -> Seq<char> {
        self@
    }

    fn escape(&self) -> (r: String) {
        escape_str(self.as_str())
    }
}

} // verus!
