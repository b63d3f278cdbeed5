use vstd::prelude::*;
use vstd::utf8::{decode_utf8, valid_utf8};

use crate::engine::CacheError;

verus! {

/// A request of the line protocol.
#[derive(Clone, Debug)]
pub enum Command {
    Read(String),
    Write(String, String),
}

/// Why a request line was refused.
#[derive(Clone, Copy, Debug, PartialEq, Eq, Structural)]
pub enum RequestError {
    InvalidCommand,
    InvalidUtf8,
}

/// The characters that separate words on a request line: Unicode `White_Space`.
pub open spec fn is_space(c: char) -> bool {
    let u = c as u32;
    (0x9 <= u <= 0xd) || u == 0x20 || u == 0x85 || u == 0xa0 || u == 0x1680 || (0x2000 <= u
        <= 0x200a) || u == 0x2028 || u == 0x2029 || u == 0x202f || u == 0x205f || u == 0x3000
}

/// Whether `c` separates words; agrees with `char::is_whitespace`.
pub fn space_char(c: char) -> (r: bool)
    ensures
        r == is_space(c),
{
    let u = c as u32;
    (0x9 <= u && u <= 0xd) || u == 0x20 || u == 0x85 || u == 0xa0 || u == 0x1680 || (0x2000 <= u
        && u <= 0x200a) || u == 0x2028 || u == 0x2029 || u == 0x202f || u == 0x205f || u == 0x3000
}

/// The word being read, as a list of zero or one words.
pub open spec fn pending_word(cur: Seq<char>) -> Seq<Seq<char>> {
    if cur.len() > 0 {
        seq![cur]
    } else {
        Seq::empty()
    }
}

/// The words of `s`, where `cur` is a word already begun before `s`.
pub open spec fn words_from(s: Seq<char>, cur: Seq<char>) -> Seq<Seq<char>>
    decreases s.len(),
{
    if s.len() == 0 {
        pending_word(cur)
    } else if is_space(s[0]) {
        pending_word(cur) + words_from(s.drop_first(), Seq::empty())
    } else {
        words_from(s.drop_first(), cur.push(s[0]))
    }
}

/// The maximal runs of non-space characters of `s`, in order.
pub open spec fn words(s: Seq<char>) -> Seq<Seq<char>> {
    words_from(s, Seq::empty())
}

/// Split a line into its words, as `str::split_whitespace` does.
pub fn split_words(line: &str) -> (r: Vec<String>)
    ensures
        r@.map_values(|w: String| w@) == words(line@),
{
    let n = line.unicode_len();
    let mut out: Vec<String> = Vec::new();
    let mut start: usize = 0;
    let mut i: usize = 0;
    assert(line@.skip(0) =~= line@);
    assert(line@.subrange(0, 0) =~= Seq::<char>::empty());
    assert(out@.map_values(|w: String| w@) =~= Seq::<Seq<char>>::empty());
    assert(Seq::<Seq<char>>::empty() + words(line@) =~= words(line@));
    while i < n
        invariant
            n == line@.len(),
            start <= i <= n,
            forall|k: int| start <= k < i ==> !is_space(#[trigger] line@[k]),
            out@.map_values(|w: String| w@) + words_from(line@.skip(i as int), line@.subrange(
                start as int,
                i as int,
            )) == words(line@),
        decreases n - i,
    {
        let c = line.get_char(i);
        let ghost rest = line@.skip(i as int);
        let ghost cur = line@.subrange(start as int, i as int);
        assert(rest[0] == c);
        assert(rest.drop_first() =~= line@.skip(i + 1));
        if space_char(c) {
            if start < i {
                let w = line.substring_char(start, i);
                let ghost before = out@.map_values(|w: String| w@);
                out.push(w.to_string());
                assert(out@.map_values(|w: String| w@) =~= before.push(cur));
                assert(pending_word(cur) =~= seq![cur]);
                assert(before + (seq![cur] + words_from(line@.skip(i + 1), Seq::empty()))
                    =~= before.push(cur) + words_from(line@.skip(i + 1), Seq::empty()));
            } else {
                assert(pending_word(cur) =~= Seq::<Seq<char>>::empty());
                assert(pending_word(cur) + words_from(line@.skip(i + 1), Seq::empty())
                    =~= words_from(line@.skip(i + 1), Seq::empty()));
            }
            i = i + 1;
            start = i;
            assert(line@.subrange(start as int, i as int) =~= Seq::<char>::empty());
        } else {
            assert(cur.push(c) =~= line@.subrange(start as int, i + 1));
            i = i + 1;
        }
    }
    let ghost cur = line@.subrange(start as int, n as int);
    assert(line@.skip(n as int) =~= Seq::<char>::empty());
    if start < n {
        let w = line.substring_char(start, n);
        let ghost before = out@.map_values(|w: String| w@);
        out.push(w.to_string());
        assert(out@.map_values(|w: String| w@) =~= before.push(cur));
        assert(pending_word(cur) =~= seq![cur]);
        assert(before + seq![cur] =~= before.push(cur));
    } else {
        assert(pending_word(cur) =~= Seq::<Seq<char>>::empty());
        assert(out@.map_values(|w: String| w@) + Seq::<Seq<char>>::empty() =~= out@.map_values(
            |w: String| w@,
        ));
    }
    out
}

/// `GET <key>`: exactly two words.
pub open spec fn is_get(ws: Seq<Seq<char>>) -> bool {
    ws.len() == 2 && ws[0] == seq!['G', 'E', 'T']
}

/// `SET <key> <value>`: three words or more; words past the third are ignored.
pub open spec fn is_set(ws: Seq<Seq<char>>) -> bool {
    ws.len() >= 3 && ws[0] == seq!['S', 'E', 'T']
}

/// `r` is the outcome of parsing a line whose characters are `s`.
pub open spec fn parses_to(s: Seq<char>, r: Result<Command, RequestError>) -> bool {
    let ws = words(s);
    match r {
        Ok(Command::Read(k)) => is_get(ws) && k@ == ws[1],
        Ok(Command::Write(k, v)) => is_set(ws) && k@ == ws[1] && v@ == ws[2],
        Err(e) => !is_get(ws) && !is_set(ws) && e == RequestError::InvalidCommand,
    }
}

/// Parse one request line of the line protocol.
pub fn parse_request(line: &str) -> (r: Result<Command, RequestError>)
    ensures
        parses_to(line@, r),
{
    let ws = split_words(line);
    let ghost views = ws@.map_values(|w: String| w@);
    assert(views.len() == ws@.len());
    let get = String::from_str("GET");
    let set = String::from_str("SET");
    proof {
        reveal_strlit("GET");
        reveal_strlit("SET");
        assert(get@ =~= seq!['G', 'E', 'T']);
        assert(set@ =~= seq!['S', 'E', 'T']);
    }
    if ws.len() == 0 {
        return Err(RequestError::InvalidCommand);
    }
    assert(views[0] == ws@[0]@);
    if ws[0] == get && ws.len() == 2 {
        assert(views[1] == ws@[1]@);
        Ok(Command::Read(ws[1].clone()))
    } else if ws[0] == set && ws.len() >= 3 {
        assert(views[1] == ws@[1]@);
        assert(views[2] == ws@[2]@);
        Ok(Command::Write(ws[1].clone(), ws[2].clone()))
    } else {
        Err(RequestError::InvalidCommand)
    }
}

/// Relies on `std::str::from_utf8`: the bytes read as text exactly when they are valid UTF-8.
#[verifier::external_body]
fn utf8_text(bytes: &[u8]) -> (r: Option<&str>)
    ensures
        r is Some <==> valid_utf8(bytes@),
        r matches Some(s) ==> s@ == decode_utf8(bytes@),
{
    std::str::from_utf8(bytes).ok()
}

/// Decode and parse one request as it came off the wire.
pub fn decode_request(bytes: &[u8]) -> (r: Result<Command, RequestError>)
    ensures
        !valid_utf8(bytes@) ==> r == Err::<Command, RequestError>(RequestError::InvalidUtf8),
        valid_utf8(bytes@) ==> parses_to(decode_utf8(bytes@), r),
{
    match utf8_text(bytes) {
        Some(line) => parse_request(line),
        None => Err(RequestError::InvalidUtf8),
    }
}

/// The reply line to a `GET`: the value on a hit, `Key not found` on a miss.
pub fn get_reply(found: Option<String>) -> (r: String)
    ensures
        match found {
            Some(v) => r@ == v@,
            None => r@ == "Key not found"@,
        },
{
    match found {
        Some(v) => v,
        None => String::from_str("Key not found"),
    }
}

/// The reply line to a `SET`: `OK`, or the reason it failed.
pub fn set_reply(outcome: Result<(), CacheError>) -> (r: String)
    ensures
        match outcome {
            Ok(()) => r@ == "OK"@,
            Err(CacheError::BackendUnavailable) => r@ == "ERROR: Backend unavailable"@,
            Err(CacheError::BackendWriteFailed) => r@ == "ERROR: Backend write failed"@,
        },
{
    match outcome {
        Ok(()) => String::from_str("OK"),
        Err(CacheError::BackendUnavailable) => String::from_str("ERROR: Backend unavailable"),
        Err(CacheError::BackendWriteFailed) => String::from_str("ERROR: Backend write failed"),
    }
}

/// The reply line to a refused request.
pub fn error_reply(e: RequestError) -> (r: String)
    ensures
        match e {
            RequestError::InvalidCommand => r@ == "ERROR: Invalid command"@,
            RequestError::InvalidUtf8 => r@ == "ERROR: Invalid UTF-8\n"@,
        },
{
    match e {
        RequestError::InvalidCommand => String::from_str("ERROR: Invalid command"),
        RequestError::InvalidUtf8 => String::from_str("ERROR: Invalid UTF-8\n"),
    }
}

} // verus!
