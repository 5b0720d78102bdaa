//! The text of the protocol: how numbers, flags, names and lines are written,
//! and how a reply from the server is read.
use vstd::prelude::*;
use vstd::string::*;
use crate::client::language::MossLanguage;

verus! {

/// A flag on the wire: `1` for set, `0` for clear.
pub open spec fn flag_text(flag: bool) -> Seq<char> {
    if flag {
        seq!['1']
    } else {
        seq!['0']
    }
}

/// Writes a flag the way the server expects it.
pub fn as_moss_option(flag: bool) -> (r: &'static str)
    ensures
        r@ == flag_text(flag),
{
    proof {
        reveal_strlit("1");
        reveal_strlit("0");
    }
    if flag {
        assert("1"@ =~= seq!['1']);
        "1"
    } else {
        assert("0"@ =~= seq!['0']);
        "0"
    }
}

/// The character of a decimal digit.
pub open spec fn digit_char(d: nat) -> char
    recommends
        d < 10,
{
    if d == 0 {
        '0'
    } else if d == 1 {
        '1'
    } else if d == 2 {
        '2'
    } else if d == 3 {
        '3'
    } else if d == 4 {
        '4'
    } else if d == 5 {
        '5'
    } else if d == 6 {
        '6'
    } else if d == 7 {
        '7'
    } else if d == 8 {
        '8'
    } else {
        '9'
    }
}

/// A natural number in decimal, most significant digit first and without
/// leading zeros.
pub open spec fn decimal_text(n: nat) -> Seq<char>
    decreases n,
{
    if n < 10 {
        seq![digit_char(n)]
    } else {
        decimal_text(n / 10).push(digit_char(n % 10))
    }
}

fn digit_str(d: usize) -> (r: &'static str)
    requires
        d < 10,
    ensures
        r@ == seq![digit_char(d as nat)],
{
    proof {
        reveal_strlit("0");
        reveal_strlit("1");
        reveal_strlit("2");
        reveal_strlit("3");
        reveal_strlit("4");
        reveal_strlit("5");
        reveal_strlit("6");
        reveal_strlit("7");
        reveal_strlit("8");
        reveal_strlit("9");
    }
    let r = if d == 0 {
        "0"
    } else if d == 1 {
        "1"
    } else if d == 2 {
        "2"
    } else if d == 3 {
        "3"
    } else if d == 4 {
        "4"
    } else if d == 5 {
        "5"
    } else if d == 6 {
        "6"
    } else if d == 7 {
        "7"
    } else if d == 8 {
        "8"
    } else {
        "9"
    };
    assert(r@ =~= seq![digit_char(d as nat)]);
    r
}

/// Writes a number in decimal.
pub fn decimal(n: usize) -> (r: String)
    ensures
        r@ == decimal_text(n as nat),
    decreases n,
{
    if n < 10 {
        digit_str(n).to_owned()
    } else {
        let mut s = decimal(n / 10);
        s.append(digit_str(n % 10));
        assert(s@ =~= decimal_text((n / 10) as nat).push(digit_char((n % 10) as nat)));
        s
    }
}

/// A decimal number has at least one digit, and every character of it is a
/// digit.
pub proof fn lemma_decimal_is_digits(n: nat)
    ensures
        decimal_text(n).len() >= 1,
        forall|i: int|
            0 <= i < decimal_text(n).len() ==> '0' <= #[trigger] decimal_text(n)[i] <= '9',
    decreases n,
{
    if n >= 10 {
        lemma_decimal_is_digits(n / 10);
    }
}

/// A file name as it is shown to the server: every space becomes an
/// underscore, every other character stays.
pub open spec fn underscored(name: Seq<char>) -> Seq<char> {
    Seq::new(
        name.len(),
        |i: int|
            if name[i] == ' ' {
                '_'
            } else {
                name[i]
            },
    )
}

/// Replaces every space of a file name by an underscore.
pub fn display_name(file_name: &str) -> (r: String)
    ensures
        r@ == underscored(file_name@),
{
    let n = file_name.unicode_len();
    let mut out = String::new();
    let mut i: usize = 0;
    while i < n
        invariant
            n == file_name@.len(),
            i <= n,
            out@ == underscored(file_name@).subrange(0, i as int),
        decreases n - i,
    {
        let c = file_name.get_char(i);
        if c == ' ' {
            proof {
                reveal_strlit("_");
            }
            out.append("_");
            assert("_"@ =~= seq!['_']);
        } else {
            out.append(file_name.substring_char(i, i + 1));
        }
        i += 1;
        assert(out@ =~= underscored(file_name@).subrange(0, i as int));
    }
    assert(out@ =~= underscored(file_name@));
    out
}

/// A displayed name holds no space, is as long as the file name, and differs
/// from it only where the file name has a space.
pub proof fn lemma_display_name_has_no_space(name: Seq<char>)
    ensures
        underscored(name).len() == name.len(),
        forall|i: int| 0 <= i < name.len() ==> #[trigger] underscored(name)[i] != ' ',
        forall|i: int|
            0 <= i < name.len() && name[i] != ' ' ==> #[trigger] underscored(name)[i] == name[i],
        forall|i: int|
            0 <= i < name.len() && name[i] == ' ' ==> #[trigger] underscored(name)[i] == '_',
{
}

/// One line of the handshake: a keyword, a space, a value, a newline.
pub open spec fn directive_text(keyword: Seq<char>, value: Seq<char>) -> Seq<char> {
    keyword + " "@ + value + "\n"@
}

/// Builds one line of the handshake.
pub fn directive(keyword: &str, value: &str) -> (r: String)
    ensures
        r@ == directive_text(keyword@, value@),
{
    let mut line = keyword.to_owned();
    line.append(" ");
    line.append(value);
    line.append("\n");
    line
}

/// The line that announces a file: its index, the language, the number of
/// bytes that follow the line, and the displayed name.
pub open spec fn file_line_text(
    index: nat,
    language: MossLanguage,
    byte_len: nat,
    file_name: Seq<char>,
) -> Seq<char> {
    "file "@ + decimal_text(index) + " "@ + language.token() + " "@ + decimal_text(byte_len) + " "@
        + underscored(file_name) + "\n"@
}

/// Builds the line that announces a file.
pub fn file_line(index: usize, language: MossLanguage, byte_len: usize, file_name: &str) -> (r:
    String)
    ensures
        r@ == file_line_text(index as nat, language, byte_len as nat, file_name@),
{
    let mut line = "file ".to_owned();
    line.append(decimal(index).as_str());
    line.append(" ");
    line.append(language.as_str());
    line.append(" ");
    line.append(decimal(byte_len).as_str());
    line.append(" ");
    line.append(display_name(file_name).as_str());
    line.append("\n");
    line
}

/// The line that asks for the comparison: the comment follows as it is.
pub open spec fn query_line_text(comment: Seq<char>) -> Seq<char> {
    "query 0 "@ + comment + "\n"@
}

/// Builds the query line.
pub fn query_line(comment: &str) -> (r: String)
    ensures
        r@ == query_line_text(comment@),
{
    let mut line = "query 0 ".to_owned();
    line.append(comment);
    line.append("\n");
    line
}

/// White space as Unicode defines it.
pub open spec fn is_space(c: char) -> bool {
    let u = c as u32;
    ||| (0x09 <= u && u <= 0x0d)
    ||| u == 0x20
    ||| u == 0x85
    ||| u == 0xa0
    ||| u == 0x1680
    ||| (0x2000 <= u && u <= 0x200a)
    ||| u == 0x2028
    ||| u == 0x2029
    ||| u == 0x202f
    ||| u == 0x205f
    ||| u == 0x3000
}

/// Tells whether a character is white space.
pub fn char_is_space(c: char) -> (r: bool)
    ensures
        r == is_space(c),
{
    let u: u32 = c as u32;
    (0x09 <= u && u <= 0x0d) || u == 0x20 || u == 0x85 || u == 0xa0 || u == 0x1680 || (0x2000 <= u
        && u <= 0x200a) || u == 0x2028 || u == 0x2029 || u == 0x202f || u == 0x205f || u == 0x3000
}

/// The reply reads `yes`, in any mix of upper and lower case, from position
/// `i`, with nothing but white space before and after.
pub open spec fn is_affirmative_at(s: Seq<char>, i: int) -> bool {
    &&& 0 <= i
    &&& i + 3 <= s.len()
    &&& forall|j: int| 0 <= j < i ==> is_space(#[trigger] s[j])
    &&& (s[i] == 'y' || s[i] == 'Y')
    &&& (s[i + 1] == 'e' || s[i + 1] == 'E')
    &&& (s[i + 2] == 's' || s[i + 2] == 'S')
    &&& forall|j: int| i + 3 <= j < s.len() ==> is_space(#[trigger] s[j])
}

/// The reply, without the white space around it and without regard to case,
/// is `yes`.
pub open spec fn is_affirmative(s: Seq<char>) -> bool {
    exists|i: int| is_affirmative_at(s, i)
}

/// A text without the white space at its two ends.
pub open spec fn trimmed(s: Seq<char>) -> Seq<char>
    decreases s.len(),
{
    if s.len() > 0 && is_space(s.first()) {
        trimmed(s.drop_first())
    } else if s.len() > 0 && is_space(s.last()) {
        trimmed(s.drop_last())
    } else {
        s
    }
}

/// The text is `yes`, in any mix of upper and lower case.
pub open spec fn reads_yes(s: Seq<char>) -> bool {
    &&& s.len() == 3
    &&& (s[0] == 'y' || s[0] == 'Y')
    &&& (s[1] == 'e' || s[1] == 'E')
    &&& (s[2] == 's' || s[2] == 'S')
}

/// A reply is an affirmative exactly when, trimmed, it reads `yes`.
pub proof fn lemma_affirmative_is_trimmed_yes(s: Seq<char>)
    ensures
        is_affirmative(s) <==> reads_yes(trimmed(s)),
    decreases s.len(),
{
    if s.len() > 0 && is_space(s.first()) {
        let rest = s.drop_first();
        lemma_affirmative_is_trimmed_yes(rest);
        if is_affirmative(s) {
            let i = choose|i: int| is_affirmative_at(s, i);
            assert(i > 0);
            assert forall|j: int| 0 <= j < i - 1 implies is_space(#[trigger] rest[j]) by {
                assert(rest[j] == s[j + 1]);
            }
            assert forall|j: int| i + 2 <= j < rest.len() implies is_space(#[trigger] rest[j]) by {
                assert(rest[j] == s[j + 1]);
            }
            assert(is_affirmative_at(rest, i - 1));
        }
        if is_affirmative(rest) {
            let i = choose|i: int| is_affirmative_at(rest, i);
            assert forall|j: int| 0 <= j < i + 1 implies is_space(#[trigger] s[j]) by {
                if j > 0 {
                    assert(s[j] == rest[j - 1]);
                }
            }
            assert forall|j: int| i + 4 <= j < s.len() implies is_space(#[trigger] s[j]) by {
                assert(s[j] == rest[j - 1]);
            }
            assert(s[i + 1] == rest[i] && s[i + 2] == rest[i + 1] && s[i + 3] == rest[i + 2]);
            assert(is_affirmative_at(s, i + 1));
        }
    } else if s.len() > 0 && is_space(s.last()) {
        let rest = s.drop_last();
        lemma_affirmative_is_trimmed_yes(rest);
        if is_affirmative(s) {
            let i = choose|i: int| is_affirmative_at(s, i);
            assert(i + 3 < s.len()) by {
                if i + 3 == s.len() {
                    assert(s[i + 2] == s.last());
                }
            }
            assert forall|j: int| 0 <= j < i implies is_space(#[trigger] rest[j]) by {
                assert(rest[j] == s[j]);
            }
            assert forall|j: int| i + 3 <= j < rest.len() implies is_space(#[trigger] rest[j]) by {
                assert(rest[j] == s[j]);
            }
            assert(is_affirmative_at(rest, i));
        }
        if is_affirmative(rest) {
            let i = choose|i: int| is_affirmative_at(rest, i);
            assert forall|j: int| 0 <= j < i implies is_space(#[trigger] s[j]) by {
                assert(s[j] == rest[j]);
            }
            assert forall|j: int| i + 3 <= j < s.len() implies is_space(#[trigger] s[j]) by {
                if j < rest.len() {
                    assert(s[j] == rest[j]);
                }
            }
            assert(s[i] == rest[i] && s[i + 1] == rest[i + 1] && s[i + 2] == rest[i + 2]);
            assert(is_affirmative_at(s, i));
        }
    } else {
        if is_affirmative(s) {
            let i = choose|i: int| is_affirmative_at(s, i);
            if i > 0 {
                assert(is_space(s[0]));
            }
            if i + 3 < s.len() {
                assert(is_space(s[s.len() - 1]));
            }
        }
        if reads_yes(s) {
            assert(is_affirmative_at(s, 0));
        }
    }
}

/// The position of the first character of `reply` that is no white space, or
/// its length if there is none.
fn first_visible(reply: &str) -> (i: usize)
    ensures
        i <= reply@.len(),
        forall|j: int| 0 <= j < i ==> is_space(#[trigger] reply@[j]),
        i < reply@.len() ==> !is_space(reply@[i as int]),
{
    let n = reply.unicode_len();
    let mut i: usize = 0;
    while i < n
        invariant
            n == reply@.len(),
            i <= n,
            forall|j: int| 0 <= j < i ==> is_space(#[trigger] reply@[j]),
        decreases n - i,
    {
        if !char_is_space(reply.get_char(i)) {
            return i;
        }
        i += 1;
    }
    i
}

/// Tells whether `reply` holds only white space from position `from` on.
fn blank_from(reply: &str, from: usize) -> (r: bool)
    requires
        from <= reply@.len(),
    ensures
        r == forall|j: int| from <= j < reply@.len() ==> is_space(#[trigger] reply@[j]),
{
    let n = reply.unicode_len();
    let mut i: usize = from;
    while i < n
        invariant
            n == reply@.len(),
            from <= i <= n,
            forall|j: int| from <= j < i ==> is_space(#[trigger] reply@[j]),
        decreases n - i,
    {
        if !char_is_space(reply.get_char(i)) {
            return false;
        }
        i += 1;
    }
    true
}

/// Decides whether the server accepted the handshake.
pub fn handshake_accepted(reply: &str) -> (ok: bool)
    ensures
        ok == is_affirmative(reply@),
{
    let n = reply.unicode_len();
    let i = first_visible(reply);
    proof {
        // Any position that qualifies is the first visible one.
        assert forall|k: int| is_affirmative_at(reply@, k) implies k == i by {
            assert(!is_space(reply@[k]));
            if k < i {
                assert(is_space(reply@[k]));
            }
            if i < k {
                assert(is_space(reply@[i as int]));
            }
        }
    }
    if n - i < 3 {
        return false;
    }
    let y = reply.get_char(i);
    let e = reply.get_char(i + 1);
    let s = reply.get_char(i + 2);
    let ok = (y == 'y' || y == 'Y') && (e == 'e' || e == 'E') && (s == 's' || s == 'S')
        && blank_from(reply, i + 3);
    proof {
        if ok {
            assert(is_affirmative_at(reply@, i as int));
        }
    }
    ok
}

/// What `String::from_utf8_lossy` makes of a sequence of bytes: the text they
/// encode, with each malformed stretch replaced by U+FFFD.
pub uninterp spec fn utf8_lossy(bytes: Seq<u8>) -> Seq<char>;

/// Decodes bytes with `String::from_utf8_lossy`, which never fails: the
/// result is the text named by [`utf8_lossy`].
#[verifier::external_body]
pub(crate) fn decode_lossy(bytes: &[u8]) -> (text: String)
    ensures
        text@ == utf8_lossy(bytes@),
{
    String::from_utf8_lossy(bytes).into_owned()
}

/// What the `regex` crate finds when `pattern` is searched in `text`:
/// `Err` where `Regex::new` refuses the pattern, else the text of the
/// leftmost match, if there is one.
pub uninterp spec fn regex_leftmost(pattern: Seq<char>, text: Seq<char>) -> Result<
    Option<Seq<char>>,
    (),
>;

/// The model of a search result: the characters of what was found.
pub open spec fn match_view(found: Result<Option<String>, ()>) -> Result<Option<Seq<char>>, ()> {
    match found {
        Ok(Some(part)) => Ok(Some(part@)),
        Ok(None) => Ok(None),
        Err(_) => Err(()),
    }
}

/// Compiles `pattern` with `regex::Regex::new` and searches `text` with
/// `Regex::captures`, taking the whole match (group 0).  The outcome depends
/// on the two strings alone and is the one named by [`regex_leftmost`].
#[verifier::external_body]
pub(crate) fn leftmost_match(pattern: &str, text: &str) -> (found: Result<Option<String>, ()>)
    ensures
        match_view(found) == regex_leftmost(pattern@, text@),
{
    match regex::Regex::new(pattern) {
        Ok(re) => Ok(re.captures(text).and_then(|c| c.get(0)).map(|m| m.as_str().to_owned())),
        Err(_) => Err(()),
    }
}

} // verus!
