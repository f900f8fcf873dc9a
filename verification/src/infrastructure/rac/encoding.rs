//! The encoding of what the `rac` utility prints: UTF-8, Windows-1251 or IBM 866.

use vstd::prelude::*;
use vstd::string::*;

use crate::outcome;
use crate::text;

verus! {

#[derive(Clone, Copy, Debug, PartialEq, Eq, Structural)]
pub enum RacEncoding {
    Utf8,
    Windows1251,
    Ibm866,
}

/// The text that bytes denote in UTF-8, if they are valid.
pub open spec fn utf8_text(bytes: Seq<u8>) -> Option<Seq<char>> {
    if vstd::utf8::valid_utf8(bytes) {
        Some(vstd::utf8::decode_utf8(bytes))
    } else {
        None
    }
}

/// Calls `std::str::from_utf8`, which gives the text of valid UTF-8 and an error otherwise.
#[verifier::external_body]
fn read_utf8(bytes: &[u8]) -> (result: Option<String>)
    ensures
        outcome::option_view(result) == utf8_text(bytes@),
{
    std::str::from_utf8(bytes).ok().map(str::to_owned)
}

/// Whether bytes are few enough that the text they denote in a single-byte encoding, at most three
/// bytes for each of them, can be held.
pub open spec fn fits(bytes: Seq<u8>) -> bool {
    3 * bytes.len() <= isize::MAX
}

/// What `Encoding::decode_without_bom_handling` of `encoding_rs::WINDOWS_1251` returns: the text, and
/// whether some byte denotes nothing.
pub uninterp spec fn windows_1251_text(bytes: Seq<u8>) -> (Seq<char>, bool);

/// Calls `encoding_rs::WINDOWS_1251.decode_without_bom_handling`, whose result is a function of the
/// bytes alone.
#[verifier::external_body]
fn read_windows_1251(bytes: &[u8]) -> (result: (String, bool))
    requires
        fits(bytes@),
    ensures
        (result.0@, result.1) == windows_1251_text(bytes@),
{
    let (decoded, had_errors) = encoding_rs::WINDOWS_1251.decode_without_bom_handling(bytes);
    (decoded.into_owned(), had_errors)
}

/// What `Encoding::decode_without_bom_handling` of `encoding_rs::IBM866` returns: the text, and
/// whether some byte denotes nothing.
pub uninterp spec fn ibm866_text(bytes: Seq<u8>) -> (Seq<char>, bool);

/// Calls `encoding_rs::IBM866.decode_without_bom_handling`, whose result is a function of the bytes
/// alone.
#[verifier::external_body]
fn read_ibm866(bytes: &[u8]) -> (result: (String, bool))
    requires
        fits(bytes@),
    ensures
        (result.0@, result.1) == ibm866_text(bytes@),
{
    let (decoded, had_errors) = encoding_rs::IBM866.decode_without_bom_handling(bytes);
    (decoded.into_owned(), had_errors)
}

/// Beginnings of words that diagnostics hold.
pub open spec fn diagnostic_words() -> Seq<Seq<char>> {
    seq![
        "ошиб"@,
        "кластер"@,
        "сервер"@,
        "соединен"@,
        "подключен"@,
        "пользовател"@,
        "парол"@,
        "аутентиф"@,
        "авторизац"@,
        "команд"@,
        "параметр"@,
        "сеанс"@,
        "информацион"@,
        "время ожидания"@,
        "не поддерж"@,
        "не найден"@,
    ]
}

/// Keys that answers hold.
pub open spec fn answer_keys() -> Seq<Seq<char>> {
    seq![
        "cluster"@,
        "cluster-id"@,
        "infobase"@,
        "infobase-id"@,
        "session"@,
        "connection"@,
        "process"@,
        "user-name"@,
        "host"@,
        "port"@,
    ]
}

/// Pairs of letters that are common in Russian.
pub open spec fn common_pairs() -> Seq<(char, char)> {
    seq![
        ('с', 'т'),
        ('н', 'о'),
        ('е', 'н'),
        ('т', 'о'),
        ('н', 'а'),
        ('о', 'в'),
        ('н', 'и'),
        ('р', 'а'),
        ('к', 'о'),
        ('е', 'р'),
        ('п', 'о'),
        ('р', 'о'),
        ('о', 'с'),
        ('н', 'е'),
        ('п', 'р'),
        ('в', 'е'),
        ('т', 'ь'),
    ]
}

/// How many of the first `count` words the text holds.
pub open spec fn words_held(s: Seq<char>, words: Seq<Seq<char>>, count: int) -> int
    decreases count,
{
    if count <= 0 {
        0
    } else {
        words_held(s, words, count - 1) + if text::contains(s, words[count - 1]) {
            1int
        } else {
            0int
        }
    }
}

/// Whether a line gives a value to the key.
pub open spec fn line_has_key(line: Seq<char>, key: Seq<char>) -> bool {
    match text::without_prefix(text::trim_start(line), key) {
        Some(rest) => text::trim_start(rest).len() > 0 && text::trim_start(rest)[0] == ':',
        None => false,
    }
}

/// Whether some line gives a value to the key.
pub open spec fn has_key(lines: Seq<Seq<char>>, key: Seq<char>) -> bool {
    exists|i: int| 0 <= i < lines.len() && line_has_key(#[trigger] lines[i], key)
}

/// How many of the first `count` keys have a line.
pub open spec fn keys_held(lines: Seq<Seq<char>>, keys: Seq<Seq<char>>, count: int) -> int
    decreases count,
{
    if count <= 0 {
        0
    } else {
        keys_held(lines, keys, count - 1) + if has_key(lines, keys[count - 1]) {
            1int
        } else {
            0int
        }
    }
}

/// What a character says for or against a decoding: box drawing, replacement characters, control
/// characters and rare Cyrillic letters speak against it.
pub open spec fn char_score(c: char) -> int {
    if '\u{2500}' <= c <= '\u{257f}' {
        -40
    } else if c == '\u{fffd}' {
        -200
    } else if text::is_control(c) && c != '\r' && c != '\n' && c != '\t' {
        -40
    } else if 'А' <= c <= 'я' || c == 'Ё' || c == 'ё' {
        1
    } else if '\u{0400}' <= c <= '\u{052f}' {
        -8
    } else {
        0
    }
}

/// What the first `count` characters say.
pub open spec fn chars_score(s: Seq<char>, count: int) -> int
    decreases count,
{
    if count <= 0 {
        0
    } else {
        chars_score(s, count - 1) + char_score(s[count - 1])
    }
}

/// How often the first `count` pairs occur.
pub open spec fn pairs_held(s: Seq<char>, pairs: Seq<(char, char)>, count: int) -> int
    decreases count,
{
    if count <= 0 {
        0
    } else {
        pairs_held(s, pairs, count - 1) + text::pair_count(
            s,
            pairs[count - 1].0,
            pairs[count - 1].1,
            0,
        )
    }
}

/// How much a decoded text looks like what the utility prints.
pub open spec fn score(decoded: Seq<char>, had_errors: bool) -> int {
    let lowered = text::lowercase(decoded);
    (if had_errors {
        -10_000int
    } else {
        0int
    }) + 100 * words_held(lowered, diagnostic_words(), diagnostic_words().len() as int) + 5
        * keys_held(text::lines(lowered), answer_keys(), answer_keys().len() as int) + chars_score(
        decoded,
        decoded.len() as int,
    ) + 2 * pairs_held(lowered, common_pairs(), common_pairs().len() as int)
}

fn count_words(lowered: &str) -> (result: i128)
    ensures
        result == words_held(lowered@, diagnostic_words(), diagnostic_words().len() as int),
        0 <= result <= 16,
{
    let words = [
        "ошиб",
        "кластер",
        "сервер",
        "соединен",
        "подключен",
        "пользовател",
        "парол",
        "аутентиф",
        "авторизац",
        "команд",
        "параметр",
        "сеанс",
        "информацион",
        "время ожидания",
        "не поддерж",
        "не найден",
    ];
    let ghost all = diagnostic_words();
    assert(text::str_views(words@) =~= all);
    let mut count: i128 = 0;
    let mut i: usize = 0;
    while i < words.len()
        invariant
            i <= words@.len() == all.len() == 16,
            all == text::str_views(words@),
            0 <= count <= i,
            count == words_held(lowered@, all, i as int),
        decreases words.len() - i,
    {
        assert(all[i as int] == words@[i as int]@);
        if text::contains_text(lowered, words[i]) {
            count = count + 1;
        }
        i = i + 1;
    }
    count
}

fn holds_key(line: &str, key: &str) -> (result: bool)
    ensures
        result == line_has_key(line@, key@),
{
    let body = text::trim_start_text(line);
    match text::strip_prefix(body.as_str(), key) {
        Some(rest) => {
            let value = text::chars(text::trim_start_text(rest.as_str()).as_str());
            value.len() > 0 && value[0] == ':'
        },
        None => false,
    }
}

fn some_line_holds(lines: &Vec<String>, key: &str) -> (result: bool)
    ensures
        result == has_key(text::views(lines@), key@),
{
    let mut i: usize = 0;
    while i < lines.len()
        invariant
            i <= lines.len(),
            forall|j: int| 0 <= j < i ==> !line_has_key(#[trigger] text::views(lines@)[j], key@),
        decreases lines.len() - i,
    {
        assert(text::views(lines@)[i as int] == lines@[i as int]@);
        if holds_key(lines[i].as_str(), key) {
            return true;
        }
        i = i + 1;
    }
    false
}

fn count_keys(lowered: &str) -> (result: i128)
    ensures
        result == keys_held(text::lines(lowered@), answer_keys(), answer_keys().len() as int),
        0 <= result <= 10,
{
    let keys = [
        "cluster",
        "cluster-id",
        "infobase",
        "infobase-id",
        "session",
        "connection",
        "process",
        "user-name",
        "host",
        "port",
    ];
    let ghost all = answer_keys();
    assert(text::str_views(keys@) =~= all);
    let lines = text::lines_of(lowered);
    let mut count: i128 = 0;
    let mut i: usize = 0;
    while i < keys.len()
        invariant
            i <= keys@.len() == all.len() == 10,
            all == text::str_views(keys@),
            text::views(lines@) == text::lines(lowered@),
            0 <= count <= i,
            count == keys_held(text::lines(lowered@), all, i as int),
        decreases keys.len() - i,
    {
        assert(all[i as int] == keys@[i as int]@);
        if some_line_holds(&lines, keys[i]) {
            count = count + 1;
        }
        i = i + 1;
    }
    count
}

fn score_char(c: char) -> (result: i128)
    ensures
        result == char_score(c),
        -200 <= result <= 1,
{
    if '\u{2500}' <= c && c <= '\u{257f}' {
        -40
    } else if c == '\u{fffd}' {
        -200
    } else if text::char_is_control(c) && c != '\r' && c != '\n' && c != '\t' {
        -40
    } else if ('А' <= c && c <= 'я') || c == 'Ё' || c == 'ё' {
        1
    } else if '\u{0400}' <= c && c <= '\u{052f}' {
        -8
    } else {
        0
    }
}

fn score_chars(decoded: &Vec<char>) -> (result: i128)
    ensures
        result == chars_score(decoded@, decoded@.len() as int),
        -200 * decoded@.len() <= result <= decoded@.len(),
{
    let mut total: i128 = 0;
    let mut i: usize = 0;
    while i < decoded.len()
        invariant
            i <= decoded.len(),
            -200 * i <= total <= i,
            total == chars_score(decoded@, i as int),
        decreases decoded.len() - i,
    {
        total = total + score_char(decoded[i]);
        i = i + 1;
    }
    total
}

fn count_pairs(lowered: &Vec<char>) -> (result: i128)
    ensures
        result == pairs_held(lowered@, common_pairs(), common_pairs().len() as int),
        0 <= result <= 17 * lowered@.len(),
{
    let pairs = [
        ('с', 'т'),
        ('н', 'о'),
        ('е', 'н'),
        ('т', 'о'),
        ('н', 'а'),
        ('о', 'в'),
        ('н', 'и'),
        ('р', 'а'),
        ('к', 'о'),
        ('е', 'р'),
        ('п', 'о'),
        ('р', 'о'),
        ('о', 'с'),
        ('н', 'е'),
        ('п', 'р'),
        ('в', 'е'),
        ('т', 'ь'),
    ];
    let ghost all = common_pairs();
    assert(pairs@ =~= all);
    assert(lowered.len() <= usize::MAX);
    let mut total: i128 = 0;
    let mut i: usize = 0;
    while i < pairs.len()
        invariant
            i <= pairs@.len() == all.len() == 17,
            pairs@ == all,
            lowered@.len() <= usize::MAX,
            0 <= total <= i * lowered@.len(),
            total == pairs_held(lowered@, all, i as int),
        decreases pairs.len() - i,
    {
        let (a, b) = pairs[i];
        let count: usize = text::count_pair(lowered, a, b);
        assert((i + 1) * lowered@.len() == i * lowered@.len() + lowered@.len()) by (nonlinear_arith);
        assert(i * lowered@.len() <= 17 * usize::MAX) by (nonlinear_arith)
            requires
                i <= 17,
                lowered@.len() <= usize::MAX,
        ;
        total = total + count as i128;
        i = i + 1;
    }
    total
}

/// How much a decoded text looks like what the utility prints.
pub fn score_decoding(decoded: &str, had_errors: bool) -> (result: i128)
    ensures
        result == score(decoded@, had_errors),
{
    let lowered = text::to_lowercase(decoded);
    let words: i128 = count_words(lowered.as_str());
    let keys: i128 = count_keys(lowered.as_str());
    let source = text::chars(decoded);
    let lowered_chars = text::chars(lowered.as_str());
    assert(source.len() <= usize::MAX && lowered_chars.len() <= usize::MAX);
    let letters: i128 = score_chars(&source);
    let pairs: i128 = count_pairs(&lowered_chars);
    let penalty: i128 = if had_errors {
        -10_000
    } else {
        0
    };
    penalty + 100 * words + 5 * keys + letters + 2 * pairs
}

pub struct DecodedView {
    pub text: Seq<char>,
    pub encoding: RacEncoding,
}

/// Output as text.
pub struct DecodedRacOutput {
    text: String,
    encoding: RacEncoding,
}

impl View for DecodedRacOutput {
    type V = DecodedView;

    closed spec fn view(&self) -> DecodedView {
        DecodedView { text: self.text@, encoding: self.encoding }
    }
}

impl DecodedRacOutput {
    pub fn text(&self) -> (result: &str)
        ensures
            result@ == self@.text,
    {
        self.text.as_str()
    }

    pub fn into_text(self) -> (result: String)
        ensures
            result@ == self@.text,
    {
        self.text
    }

    pub fn encoding(&self) -> (result: RacEncoding)
        ensures
            result == self@.encoding,
    {
        self.encoding
    }
}

/// A text without the byte order mark at its beginning.
pub open spec fn without_mark(s: Seq<char>) -> Seq<char> {
    if s.len() > 0 && s[0] == '\u{feff}' {
        s.skip(1)
    } else {
        s
    }
}

/// The better of two decodings; Windows-1251 where neither is better.
pub open spec fn better_decoding(windows: (Seq<char>, bool), oem: (Seq<char>, bool)) -> DecodedView {
    if score(oem.0, oem.1) > score(windows.0, windows.1) {
        DecodedView { text: oem.0, encoding: RacEncoding::Ibm866 }
    } else {
        DecodedView { text: windows.0, encoding: RacEncoding::Windows1251 }
    }
}

/// What bytes denote: valid UTF-8 wins, else the better of the two legacy encodings.
pub open spec fn decoded_output(bytes: Seq<u8>) -> DecodedView {
    match utf8_text(bytes) {
        Some(decoded) => DecodedView { text: without_mark(decoded), encoding: RacEncoding::Utf8 },
        None => better_decoding(windows_1251_text(bytes), ibm866_text(bytes)),
    }
}

/// Chooses between the two legacy decodings of the same bytes.
pub fn choose_decoding(windows: (String, bool), oem: (String, bool)) -> (result: DecodedRacOutput)
    ensures
        result@ == better_decoding((windows.0@, windows.1), (oem.0@, oem.1)),
{
    let windows_score: i128 = score_decoding(windows.0.as_str(), windows.1);
    let oem_score: i128 = score_decoding(oem.0.as_str(), oem.1);
    if oem_score > windows_score {
        DecodedRacOutput { text: oem.0, encoding: RacEncoding::Ibm866 }
    } else {
        DecodedRacOutput { text: windows.0, encoding: RacEncoding::Windows1251 }
    }
}

/// Turns output into text.
pub fn decode_rac_output(bytes: &[u8]) -> (result: DecodedRacOutput)
    requires
        fits(bytes@),
    ensures
        result@ == decoded_output(bytes@),
{
    match read_utf8(bytes) {
        Some(decoded) => {
            let source = text::chars(decoded.as_str());
            let from: usize = if source.len() > 0 && source[0] == '\u{feff}' {
                1
            } else {
                0
            };
            let body = text::text_of(&source, from, source.len());
            assert(body@ =~= without_mark(decoded@));
            DecodedRacOutput { text: body, encoding: RacEncoding::Utf8 }
        },
        None => choose_decoding(read_windows_1251(bytes), read_ibm866(bytes)),
    }
}

#[derive(Clone, Copy, Debug)]
pub struct RacOutputDecoder {}

impl RacOutputDecoder {
    pub fn decode(bytes: &[u8]) -> (result: DecodedRacOutput)
        requires
            fits(bytes@),
        ensures
            result@ == decoded_output(bytes@),
    {
        decode_rac_output(bytes)
    }
}

/// Output in UTF-8 is never taken for another encoding.
pub proof fn law_utf8_has_priority(decoded: Seq<char>)
    ensures
        decoded_output(vstd::utf8::encode_utf8(decoded)) == (DecodedView {
            text: without_mark(decoded),
            encoding: RacEncoding::Utf8,
        }),
{
    vstd::utf8::encode_utf8_valid_utf8(decoded);
    vstd::utf8::encode_utf8_decode_utf8(decoded);
}

} // verus!
