//! Folder-safe names: letters folded to their closest ASCII letter, every run
//! of other characters collapsed to one separator, separators trimmed at
//! both ends.

use vstd::prelude::*;
use vstd::std_specs::iter::IteratorSpec;

verus! {

/// The separator that stands for every run of characters a folder name
/// cannot keep.
pub const SEPARATOR: char = '_';

/// Lower-case ASCII letter or ASCII digit.
pub open spec fn is_plain(c: char) -> bool {
    ('a' <= c <= 'z') || ('0' <= c <= '9')
}

/// The ASCII letter a character folds to.
///
/// An ASCII capital folds to its lower-case letter. A letter of the Latin-1
/// Supplement, of Latin Extended-A and B or of Latin Extended Additional
/// (U+00C0 to U+024F and U+1E00 to U+1EFF: the accented, dotted, stroked and
/// hooked letters of the European languages and of Vietnamese, the Turkish
/// ones among them) folds to its base letter in lower case, a ligature or
/// digraph to its first letter (Æ to a, Œ to o, Ĳ to i, ǆ to d), Þ to t and
/// ß to s. Every other character stays as it is: a letter that is written
/// with no ASCII letter, or of another script, has none close to it.
pub open spec fn fold_char(c: char) -> char {
    let n = c as u32;
    if 0x41 <= n && n <= 0x5a {
        ((n + 32) as u8) as char
    } else if n < 0xc0 {
        c
    } else if n <= 0xc6 {
        'a'  // À Á Â Ã Ä Å Æ
    } else if n == 0xc7 {
        'c'  // Ç
    } else if n <= 0xcb {
        'e'  // È É Ê Ë
    } else if n <= 0xcf {
        'i'  // Ì Í Î Ï
    } else if n == 0xd0 {
        'd'  // Ð
    } else if n == 0xd1 {
        'n'  // Ñ
    } else if n <= 0xd6 {
        'o'  // Ò Ó Ô Õ Ö
    } else if n == 0xd7 {
        c  // the multiplication sign
    } else if n == 0xd8 {
        'o'  // Ø
    } else if n <= 0xdc {
        'u'  // Ù Ú Û Ü
    } else if n == 0xdd {
        'y'  // Ý
    } else if n == 0xde {
        't'  // Þ
    } else if n == 0xdf {
        's'  // ß
    } else if n <= 0xe6 {
        'a'  // à á â ã ä å æ
    } else if n == 0xe7 {
        'c'  // ç
    } else if n <= 0xeb {
        'e'  // è é ê ë
    } else if n <= 0xef {
        'i'  // ì í î ï
    } else if n == 0xf0 {
        'd'  // ð
    } else if n == 0xf1 {
        'n'  // ñ
    } else if n <= 0xf6 {
        'o'  // ò ó ô õ ö
    } else if n == 0xf7 {
        c  // the division sign
    } else if n == 0xf8 {
        'o'  // ø
    } else if n <= 0xfc {
        'u'  // ù ú û ü
    } else if n == 0xfd {
        'y'  // ý
    } else if n == 0xfe {
        't'  // þ
    } else if n == 0xff {
        'y'  // ÿ
    } else if n <= 0x105 {
        'a'  // Ā ā Ă ă Ą ą
    } else if n <= 0x10d {
        'c'  // Ć ć Ĉ ĉ Ċ ċ Č č
    } else if n <= 0x111 {
        'd'  // Ď ď Đ đ
    } else if n <= 0x11b {
        'e'  // Ē ē Ĕ ĕ Ė ė Ę ę Ě ě
    } else if n <= 0x123 {
        'g'  // Ĝ ĝ Ğ ğ Ġ ġ Ģ ģ
    } else if n <= 0x127 {
        'h'  // Ĥ ĥ Ħ ħ
    } else if n <= 0x133 {
        'i'  // Ĩ ĩ Ī ī Ĭ ĭ Į į İ ı Ĳ ĳ
    } else if n <= 0x135 {
        'j'  // Ĵ ĵ
    } else if n <= 0x138 {
        'k'  // Ķ ķ ĸ
    } else if n <= 0x142 {
        'l'  // Ĺ ĺ Ļ ļ Ľ ľ Ŀ ŀ Ł ł
    } else if n <= 0x14b {
        'n'  // Ń ń Ņ ņ Ň ň ŉ Ŋ ŋ
    } else if n <= 0x153 {
        'o'  // Ō ō Ŏ ŏ Ő ő Œ œ
    } else if n <= 0x159 {
        'r'  // Ŕ ŕ Ŗ ŗ Ř ř
    } else if n <= 0x161 {
        's'  // Ś ś Ŝ ŝ Ş ş Š š
    } else if n <= 0x167 {
        't'  // Ţ ţ Ť ť Ŧ ŧ
    } else if n <= 0x173 {
        'u'  // Ũ ũ Ū ū Ŭ ŭ Ů ů Ű ű Ų ų
    } else if n <= 0x175 {
        'w'  // Ŵ ŵ
    } else if n <= 0x178 {
        'y'  // Ŷ ŷ Ÿ
    } else if n <= 0x17e {
        'z'  // Ź ź Ż ż Ž ž
    } else if n == 0x17f {
        's'  // ſ
    } else if n <= 0x183 {
        'b'  // ƀ Ɓ Ƃ ƃ
    } else if n <= 0x186 {
        c  // no letter with a base letter
    } else if n <= 0x188 {
        'c'  // Ƈ ƈ
    } else if n <= 0x18c {
        'd'  // Ɖ Ɗ Ƌ ƌ
    } else if n <= 0x190 {
        c  // no letter with a base letter
    } else if n <= 0x192 {
        'f'  // Ƒ ƒ
    } else if n <= 0x193 {
        'g'  // Ɠ
    } else if n <= 0x196 {
        c  // no letter with a base letter
    } else if n <= 0x197 {
        'i'  // Ɨ
    } else if n <= 0x199 {
        'k'  // Ƙ ƙ
    } else if n <= 0x19a {
        'l'  // ƚ
    } else if n <= 0x19c {
        c  // no letter with a base letter
    } else if n <= 0x19e {
        'n'  // Ɲ ƞ
    } else if n <= 0x1a1 {
        'o'  // Ɵ Ơ ơ
    } else if n <= 0x1a3 {
        c  // no letter with a base letter
    } else if n <= 0x1a5 {
        'p'  // Ƥ ƥ
    } else if n <= 0x1aa {
        c  // no letter with a base letter
    } else if n <= 0x1ae {
        't'  // ƫ Ƭ ƭ Ʈ
    } else if n <= 0x1b0 {
        'u'  // Ư ư
    } else if n <= 0x1b1 {
        c  // no letter with a base letter
    } else if n <= 0x1b2 {
        'v'  // Ʋ
    } else if n <= 0x1b4 {
        'y'  // Ƴ ƴ
    } else if n <= 0x1b6 {
        'z'  // Ƶ ƶ
    } else if n <= 0x1c3 {
        c  // no letter with a base letter
    } else if n <= 0x1c6 {
        'd'  // Ǆ ǅ ǆ
    } else if n <= 0x1c9 {
        'l'  // Ǉ ǈ ǉ
    } else if n <= 0x1cc {
        'n'  // Ǌ ǋ ǌ
    } else if n <= 0x1ce {
        'a'  // Ǎ ǎ
    } else if n <= 0x1d0 {
        'i'  // Ǐ ǐ
    } else if n <= 0x1d2 {
        'o'  // Ǒ ǒ
    } else if n <= 0x1dc {
        'u'  // Ǔ ǔ Ǖ ǖ Ǘ ǘ Ǚ ǚ Ǜ ǜ
    } else if n <= 0x1dd {
        c  // no letter with a base letter
    } else if n <= 0x1e3 {
        'a'  // Ǟ ǟ Ǡ ǡ Ǣ ǣ
    } else if n <= 0x1e7 {
        'g'  // Ǥ ǥ Ǧ ǧ
    } else if n <= 0x1e9 {
        'k'  // Ǩ ǩ
    } else if n <= 0x1ed {
        'o'  // Ǫ ǫ Ǭ ǭ
    } else if n <= 0x1ef {
        c  // no letter with a base letter
    } else if n <= 0x1f0 {
        'j'  // ǰ
    } else if n <= 0x1f3 {
        'd'  // Ǳ ǲ ǳ
    } else if n <= 0x1f5 {
        'g'  // Ǵ ǵ
    } else if n <= 0x1f7 {
        c  // no letter with a base letter
    } else if n <= 0x1f9 {
        'n'  // Ǹ ǹ
    } else if n <= 0x1fd {
        'a'  // Ǻ ǻ Ǽ ǽ
    } else if n <= 0x1ff {
        'o'  // Ǿ ǿ
    } else if n <= 0x203 {
        'a'  // Ȁ ȁ Ȃ ȃ
    } else if n <= 0x207 {
        'e'  // Ȅ ȅ Ȇ ȇ
    } else if n <= 0x20b {
        'i'  // Ȉ ȉ Ȋ ȋ
    } else if n <= 0x20f {
        'o'  // Ȍ ȍ Ȏ ȏ
    } else if n <= 0x213 {
        'r'  // Ȑ ȑ Ȓ ȓ
    } else if n <= 0x217 {
        'u'  // Ȕ ȕ Ȗ ȗ
    } else if n <= 0x219 {
        's'  // Ș ș
    } else if n <= 0x21b {
        't'  // Ț ț
    } else if n <= 0x21d {
        c  // no letter with a base letter
    } else if n <= 0x21f {
        'h'  // Ȟ ȟ
    } else if n <= 0x220 {
        'n'  // Ƞ
    } else if n <= 0x221 {
        'd'  // ȡ
    } else if n <= 0x223 {
        c  // no letter with a base letter
    } else if n <= 0x225 {
        'z'  // Ȥ ȥ
    } else if n <= 0x227 {
        'a'  // Ȧ ȧ
    } else if n <= 0x229 {
        'e'  // Ȩ ȩ
    } else if n <= 0x231 {
        'o'  // Ȫ ȫ Ȭ ȭ Ȯ ȯ Ȱ ȱ
    } else if n <= 0x233 {
        'y'  // Ȳ ȳ
    } else if n <= 0x234 {
        'l'  // ȴ
    } else if n <= 0x235 {
        'n'  // ȵ
    } else if n <= 0x236 {
        't'  // ȶ
    } else if n <= 0x237 {
        'j'  // ȷ
    } else if n <= 0x239 {
        c  // no letter with a base letter
    } else if n <= 0x23a {
        'a'  // Ⱥ
    } else if n <= 0x23c {
        'c'  // Ȼ ȼ
    } else if n <= 0x23d {
        'l'  // Ƚ
    } else if n <= 0x23e {
        't'  // Ⱦ
    } else if n <= 0x23f {
        's'  // ȿ
    } else if n <= 0x240 {
        'z'  // ɀ
    } else if n <= 0x242 {
        c  // no letter with a base letter
    } else if n <= 0x243 {
        'b'  // Ƀ
    } else if n <= 0x245 {
        c  // no letter with a base letter
    } else if n <= 0x247 {
        'e'  // Ɇ ɇ
    } else if n <= 0x249 {
        'j'  // Ɉ ɉ
    } else if n <= 0x24a {
        c  // no letter with a base letter
    } else if n <= 0x24b {
        'q'  // ɋ
    } else if n <= 0x24d {
        'r'  // Ɍ ɍ
    } else if n <= 0x24f {
        'y'  // Ɏ ɏ
    } else if n < 0x1e00 {
        c
    } else if n <= 0x1e01 {
        'a'  // Ḁ ḁ
    } else if n <= 0x1e07 {
        'b'  // Ḃ to ḇ
    } else if n <= 0x1e09 {
        'c'  // Ḉ ḉ
    } else if n <= 0x1e13 {
        'd'  // Ḋ to ḓ
    } else if n <= 0x1e1d {
        'e'  // Ḕ to ḝ
    } else if n <= 0x1e1f {
        'f'  // Ḟ ḟ
    } else if n <= 0x1e21 {
        'g'  // Ḡ ḡ
    } else if n <= 0x1e2b {
        'h'  // Ḣ to ḫ
    } else if n <= 0x1e2f {
        'i'  // Ḭ to ḯ
    } else if n <= 0x1e35 {
        'k'  // Ḱ to ḵ
    } else if n <= 0x1e3d {
        'l'  // Ḷ to ḽ
    } else if n <= 0x1e43 {
        'm'  // Ḿ to ṃ
    } else if n <= 0x1e4b {
        'n'  // Ṅ to ṋ
    } else if n <= 0x1e53 {
        'o'  // Ṍ to ṓ
    } else if n <= 0x1e57 {
        'p'  // Ṕ to ṗ
    } else if n <= 0x1e5f {
        'r'  // Ṙ to ṟ
    } else if n <= 0x1e69 {
        's'  // Ṡ to ṩ
    } else if n <= 0x1e71 {
        't'  // Ṫ to ṱ
    } else if n <= 0x1e7b {
        'u'  // Ṳ to ṻ
    } else if n <= 0x1e7f {
        'v'  // Ṽ to ṿ
    } else if n <= 0x1e89 {
        'w'  // Ẁ to ẉ
    } else if n <= 0x1e8d {
        'x'  // Ẋ to ẍ
    } else if n <= 0x1e8f {
        'y'  // Ẏ ẏ
    } else if n <= 0x1e95 {
        'z'  // Ẑ to ẕ
    } else if n <= 0x1e96 {
        'h'  // ẖ
    } else if n <= 0x1e97 {
        't'  // ẗ
    } else if n <= 0x1e98 {
        'w'  // ẘ
    } else if n <= 0x1e99 {
        'y'  // ẙ
    } else if n <= 0x1e9a {
        'a'  // ẚ
    } else if n <= 0x1e9e {
        's'  // ẛ ẜ ẝ ẞ
    } else if n <= 0x1e9f {
        'd'  // ẟ
    } else if n <= 0x1eb7 {
        'a'  // Ạ to ặ
    } else if n <= 0x1ec7 {
        'e'  // Ẹ to ệ
    } else if n <= 0x1ecb {
        'i'  // Ỉ to ị
    } else if n <= 0x1ee3 {
        'o'  // Ọ to ợ
    } else if n <= 0x1ef1 {
        'u'  // Ụ to ự
    } else if n <= 0x1ef9 {
        'y'  // Ỳ to ỹ
    } else if n <= 0x1efb {
        'l'  // Ỻ ỻ
    } else if n <= 0x1efd {
        'v'  // Ỽ ỽ
    } else if n <= 0x1eff {
        'y'  // Ỿ ỿ
    } else {
        c
    }
}

/// What one character of a name becomes before runs are collapsed: the
/// letter it folds to or the digit it is, and the separator otherwise.
pub open spec fn slug_char(c: char) -> char {
    let folded = fold_char(c);
    if is_plain(folded) {
        folded
    } else {
        SEPARATOR
    }
}

/// Whether a character is a combining diacritical mark (U+0300 to U+036F):
/// an accent written after the letter it belongs to.
pub open spec fn is_mark(c: char) -> bool {
    0x300 <= c as u32 && c as u32 <= 0x36f
}

/// `s` without its combining marks, so that a letter written with an accent
/// after it is the letter alone.
pub open spec fn without_marks(s: Seq<char>) -> Seq<char>
    decreases s.len(),
{
    if s.len() == 0 {
        s
    } else if is_mark(s.last()) {
        without_marks(s.drop_last())
    } else {
        without_marks(s.drop_last()).push(s.last())
    }
}

/// `s` with every run of separators collapsed to one separator.
pub open spec fn squeeze(s: Seq<char>) -> Seq<char>
    decreases s.len(),
{
    if s.len() == 0 {
        s
    } else if s.len() >= 2 && s.last() == SEPARATOR && s[s.len() - 2] == SEPARATOR {
        squeeze(s.drop_last())
    } else {
        squeeze(s.drop_last()).push(s.last())
    }
}

/// `s` without the separators at its end.
pub open spec fn trim_end(s: Seq<char>) -> Seq<char>
    decreases s.len(),
{
    if s.len() > 0 && s.last() == SEPARATOR {
        trim_end(s.drop_last())
    } else {
        s
    }
}

/// `s` without the separators at its start.
pub open spec fn trim_start(s: Seq<char>) -> Seq<char>
    decreases s.len(),
{
    if s.len() > 0 && s.first() == SEPARATOR {
        trim_start(s.drop_first())
    } else {
        s
    }
}

/// The slug of a name: the combining marks dropped, every other character
/// mapped by [`slug_char`], every run of separators collapsed to one, and
/// the separators at both ends removed.
pub open spec fn slug_of(name: Seq<char>) -> Seq<char> {
    trim_start(
        trim_end(squeeze(without_marks(name).map_values(|c: char| slug_char(c)))),
    )
}

/// A text is folder-safe when it holds only lower-case ASCII letters, digits
/// and separators, no two separators stand side by side, and it neither
/// starts nor ends with a separator.
pub open spec fn is_folder_safe(s: Seq<char>) -> bool {
    &&& forall|i: int| 0 <= i < s.len() ==> is_plain(#[trigger] s[i]) || s[i] == SEPARATOR
    &&& forall|i: int|
        0 <= i < s.len() - 1 ==> !(#[trigger] s[i] == SEPARATOR && s[i + 1] == SEPARATOR)
    &&& s.len() > 0 ==> s.first() != SEPARATOR && s.last() != SEPARATOR
}

proof fn lemma_trim_end_is_prefix(s: Seq<char>, end: int)
    requires
        0 <= end <= s.len(),
        forall|i: int| end <= i < s.len() ==> s[i] == SEPARATOR,
        end > 0 ==> s[end - 1] != SEPARATOR,
    ensures
        trim_end(s) == s.subrange(0, end),
    decreases s.len() - end,
{
    if end == s.len() {
        assert(s.subrange(0, end) =~= s);
    } else {
        let shorter = s.drop_last();
        lemma_trim_end_is_prefix(shorter, end);
        assert(shorter.subrange(0, end) =~= s.subrange(0, end));
    }
}

proof fn lemma_trim_start_is_suffix(s: Seq<char>, start: int)
    requires
        0 <= start <= s.len(),
        forall|i: int| 0 <= i < start ==> s[i] == SEPARATOR,
        start < s.len() ==> s[start] != SEPARATOR,
    ensures
        trim_start(s) == s.subrange(start, s.len() as int),
    decreases start,
{
    if start == 0 {
        assert(s.subrange(0, s.len() as int) =~= s);
    } else {
        let shorter = s.drop_first();
        assert forall|i: int| 0 <= i < start - 1 implies shorter[i] == SEPARATOR by {
            assert(shorter[i] == s[i + 1]);
        }
        lemma_trim_start_is_suffix(shorter, start - 1);
        assert(shorter.subrange(start - 1, shorter.len() as int) =~= s.subrange(
            start,
            s.len() as int,
        ));
    }
}

fn fold(c: char) -> (r: char)
    ensures
        r == fold_char(c),
{
    let n = c as u32;
    if 0x41 <= n && n <= 0x5a {
        ((n + 32) as u8) as char
    } else if n < 0xc0 {
        c
    } else if n <= 0xc6 {
        'a'
    } else if n == 0xc7 {
        'c'
    } else if n <= 0xcb {
        'e'
    } else if n <= 0xcf {
        'i'
    } else if n == 0xd0 {
        'd'
    } else if n == 0xd1 {
        'n'
    } else if n <= 0xd6 {
        'o'
    } else if n == 0xd7 {
        c
    } else if n == 0xd8 {
        'o'
    } else if n <= 0xdc {
        'u'
    } else if n == 0xdd {
        'y'
    } else if n == 0xde {
        't'
    } else if n == 0xdf {
        's'
    } else if n <= 0xe6 {
        'a'
    } else if n == 0xe7 {
        'c'
    } else if n <= 0xeb {
        'e'
    } else if n <= 0xef {
        'i'
    } else if n == 0xf0 {
        'd'
    } else if n == 0xf1 {
        'n'
    } else if n <= 0xf6 {
        'o'
    } else if n == 0xf7 {
        c
    } else if n == 0xf8 {
        'o'
    } else if n <= 0xfc {
        'u'
    } else if n == 0xfd {
        'y'
    } else if n == 0xfe {
        't'
    } else if n == 0xff {
        'y'
    } else if n <= 0x105 {
        'a'
    } else if n <= 0x10d {
        'c'
    } else if n <= 0x111 {
        'd'
    } else if n <= 0x11b {
        'e'
    } else if n <= 0x123 {
        'g'
    } else if n <= 0x127 {
        'h'
    } else if n <= 0x133 {
        'i'
    } else if n <= 0x135 {
        'j'
    } else if n <= 0x138 {
        'k'
    } else if n <= 0x142 {
        'l'
    } else if n <= 0x14b {
        'n'
    } else if n <= 0x153 {
        'o'
    } else if n <= 0x159 {
        'r'
    } else if n <= 0x161 {
        's'
    } else if n <= 0x167 {
        't'
    } else if n <= 0x173 {
        'u'
    } else if n <= 0x175 {
        'w'
    } else if n <= 0x178 {
        'y'
    } else if n <= 0x17e {
        'z'
    } else if n == 0x17f {
        's'
    } else if n <= 0x183 {
        'b'
    } else if n <= 0x186 {
        c
    } else if n <= 0x188 {
        'c'
    } else if n <= 0x18c {
        'd'
    } else if n <= 0x190 {
        c
    } else if n <= 0x192 {
        'f'
    } else if n <= 0x193 {
        'g'
    } else if n <= 0x196 {
        c
    } else if n <= 0x197 {
        'i'
    } else if n <= 0x199 {
        'k'
    } else if n <= 0x19a {
        'l'
    } else if n <= 0x19c {
        c
    } else if n <= 0x19e {
        'n'
    } else if n <= 0x1a1 {
        'o'
    } else if n <= 0x1a3 {
        c
    } else if n <= 0x1a5 {
        'p'
    } else if n <= 0x1aa {
        c
    } else if n <= 0x1ae {
        't'
    } else if n <= 0x1b0 {
        'u'
    } else if n <= 0x1b1 {
        c
    } else if n <= 0x1b2 {
        'v'
    } else if n <= 0x1b4 {
        'y'
    } else if n <= 0x1b6 {
        'z'
    } else if n <= 0x1c3 {
        c
    } else if n <= 0x1c6 {
        'd'
    } else if n <= 0x1c9 {
        'l'
    } else if n <= 0x1cc {
        'n'
    } else if n <= 0x1ce {
        'a'
    } else if n <= 0x1d0 {
        'i'
    } else if n <= 0x1d2 {
        'o'
    } else if n <= 0x1dc {
        'u'
    } else if n <= 0x1dd {
        c
    } else if n <= 0x1e3 {
        'a'
    } else if n <= 0x1e7 {
        'g'
    } else if n <= 0x1e9 {
        'k'
    } else if n <= 0x1ed {
        'o'
    } else if n <= 0x1ef {
        c
    } else if n <= 0x1f0 {
        'j'
    } else if n <= 0x1f3 {
        'd'
    } else if n <= 0x1f5 {
        'g'
    } else if n <= 0x1f7 {
        c
    } else if n <= 0x1f9 {
        'n'
    } else if n <= 0x1fd {
        'a'
    } else if n <= 0x1ff {
        'o'
    } else if n <= 0x203 {
        'a'
    } else if n <= 0x207 {
        'e'
    } else if n <= 0x20b {
        'i'
    } else if n <= 0x20f {
        'o'
    } else if n <= 0x213 {
        'r'
    } else if n <= 0x217 {
        'u'
    } else if n <= 0x219 {
        's'
    } else if n <= 0x21b {
        't'
    } else if n <= 0x21d {
        c
    } else if n <= 0x21f {
        'h'
    } else if n <= 0x220 {
        'n'
    } else if n <= 0x221 {
        'd'
    } else if n <= 0x223 {
        c
    } else if n <= 0x225 {
        'z'
    } else if n <= 0x227 {
        'a'
    } else if n <= 0x229 {
        'e'
    } else if n <= 0x231 {
        'o'
    } else if n <= 0x233 {
        'y'
    } else if n <= 0x234 {
        'l'
    } else if n <= 0x235 {
        'n'
    } else if n <= 0x236 {
        't'
    } else if n <= 0x237 {
        'j'
    } else if n <= 0x239 {
        c
    } else if n <= 0x23a {
        'a'
    } else if n <= 0x23c {
        'c'
    } else if n <= 0x23d {
        'l'
    } else if n <= 0x23e {
        't'
    } else if n <= 0x23f {
        's'
    } else if n <= 0x240 {
        'z'
    } else if n <= 0x242 {
        c
    } else if n <= 0x243 {
        'b'
    } else if n <= 0x245 {
        c
    } else if n <= 0x247 {
        'e'
    } else if n <= 0x249 {
        'j'
    } else if n <= 0x24a {
        c
    } else if n <= 0x24b {
        'q'
    } else if n <= 0x24d {
        'r'
    } else if n <= 0x24f {
        'y'
    } else if n < 0x1e00 {
        c
    } else if n <= 0x1e01 {
        'a'
    } else if n <= 0x1e07 {
        'b'
    } else if n <= 0x1e09 {
        'c'
    } else if n <= 0x1e13 {
        'd'
    } else if n <= 0x1e1d {
        'e'
    } else if n <= 0x1e1f {
        'f'
    } else if n <= 0x1e21 {
        'g'
    } else if n <= 0x1e2b {
        'h'
    } else if n <= 0x1e2f {
        'i'
    } else if n <= 0x1e35 {
        'k'
    } else if n <= 0x1e3d {
        'l'
    } else if n <= 0x1e43 {
        'm'
    } else if n <= 0x1e4b {
        'n'
    } else if n <= 0x1e53 {
        'o'
    } else if n <= 0x1e57 {
        'p'
    } else if n <= 0x1e5f {
        'r'
    } else if n <= 0x1e69 {
        's'
    } else if n <= 0x1e71 {
        't'
    } else if n <= 0x1e7b {
        'u'
    } else if n <= 0x1e7f {
        'v'
    } else if n <= 0x1e89 {
        'w'
    } else if n <= 0x1e8d {
        'x'
    } else if n <= 0x1e8f {
        'y'
    } else if n <= 0x1e95 {
        'z'
    } else if n <= 0x1e96 {
        'h'
    } else if n <= 0x1e97 {
        't'
    } else if n <= 0x1e98 {
        'w'
    } else if n <= 0x1e99 {
        'y'
    } else if n <= 0x1e9a {
        'a'
    } else if n <= 0x1e9e {
        's'
    } else if n <= 0x1e9f {
        'd'
    } else if n <= 0x1eb7 {
        'a'
    } else if n <= 0x1ec7 {
        'e'
    } else if n <= 0x1ecb {
        'i'
    } else if n <= 0x1ee3 {
        'o'
    } else if n <= 0x1ef1 {
        'u'
    } else if n <= 0x1ef9 {
        'y'
    } else if n <= 0x1efb {
        'l'
    } else if n <= 0x1efd {
        'v'
    } else if n <= 0x1eff {
        'y'
    } else {
        c
    }
}

fn slug_one(c: char) -> (r: char)
    ensures
        r == slug_char(c),
{
    let folded = fold(c);
    if ('a' <= folded && folded <= 'z') || ('0' <= folded && folded <= '9') {
        folded
    } else {
        SEPARATOR
    }
}

/// Turns a person's name into a folder-safe slug.
///
/// A letter becomes the ASCII letter closest to it, in lower case, and an
/// accent written after its letter is dropped; a digit stays; every run of
/// other characters becomes one separator; and the separators at both ends
/// are dropped.
pub fn slug_tr(s: &str) -> (out: String)
    ensures
        out@ == slug_of(s@),
        is_folder_safe(out@),
{
    let ghost mut done: int = 0;
    let ghost mut mapped: Seq<char> = Seq::empty();
    let mut squeezed: Vec<char> = Vec::new();
    let mut after_separator = false;
    let mut it = s.chars();
    proof {
        assert(s@.subrange(0, 0) =~= Seq::<char>::empty());
        assert(without_marks(s@.subrange(0, 0)).map_values(|c: char| slug_char(c)) =~= mapped);
    }
    loop
        invariant
            0 <= done <= s@.len(),
            done + it.remaining().len() == s@.len(),
            it.remaining() == s@.subrange(done, s@.len() as int),
            mapped == without_marks(s@.subrange(0, done)).map_values(|c: char| slug_char(c)),
            squeezed@ == squeeze(mapped),
            after_separator == (mapped.len() > 0 && mapped.last() == SEPARATOR),
            after_separator == (squeezed@.len() > 0 && squeezed@.last() == SEPARATOR),
            forall|i: int|
                0 <= i < squeezed@.len() ==> is_plain(#[trigger] squeezed@[i]) || squeezed@[i]
                    == SEPARATOR,
            forall|i: int|
                0 <= i < squeezed@.len() - 1 ==> !(#[trigger] squeezed@[i] == SEPARATOR
                    && squeezed@[i + 1] == SEPARATOR),
        ensures
            done == s@.len(),
            mapped == without_marks(s@.subrange(0, done)).map_values(|c: char| slug_char(c)),
            squeezed@ == squeeze(mapped),
            forall|i: int|
                0 <= i < squeezed@.len() ==> is_plain(#[trigger] squeezed@[i]) || squeezed@[i]
                    == SEPARATOR,
            forall|i: int|
                0 <= i < squeezed@.len() - 1 ==> !(#[trigger] squeezed@[i] == SEPARATOR
                    && squeezed@[i + 1] == SEPARATOR),
        decreases s@.len() - done,
    {
        match it.next() {
            Some(c) => {
                let ghost seen = s@.subrange(0, done + 1);
                proof {
                    assert(seen.drop_last() =~= s@.subrange(0, done));
                    assert(seen.last() == c);
                }
                let n = c as u32;
                if !(0x300 <= n && n <= 0x36f) {
                    let x = slug_one(c);
                    proof {
                        let kept = without_marks(s@.subrange(0, done));
                        assert(without_marks(seen) == kept.push(c));
                        assert(kept.push(c).map_values(|c: char| slug_char(c)) =~= mapped.push(x));
                        assert(mapped.push(x).drop_last() =~= mapped);
                        mapped = mapped.push(x);
                    }
                    if !(x == SEPARATOR && after_separator) {
                        squeezed.push(x);
                    }
                    after_separator = x == SEPARATOR;
                }
                proof {
                    done = done + 1;
                    assert(it.remaining() =~= s@.subrange(done, s@.len() as int));
                }
            },
            None => {
                break ;
            },
        }
    }
    assert(s@.subrange(0, done) =~= s@);
    let mut end: usize = squeezed.len();
    while end > 0 && squeezed[end - 1] == SEPARATOR
        invariant
            end <= squeezed@.len(),
            forall|i: int| end <= i < squeezed@.len() ==> squeezed@[i] == SEPARATOR,
        decreases end,
    {
        end = end - 1;
    }
    let mut start: usize = 0;
    while start < end && squeezed[start] == SEPARATOR
        invariant
            start <= end <= squeezed@.len(),
            forall|i: int| 0 <= i < start ==> squeezed@[i] == SEPARATOR,
        decreases end - start,
    {
        start = start + 1;
    }
    let ghost kept = squeezed@.subrange(0, end as int);
    proof {
        lemma_trim_end_is_prefix(squeezed@, end as int);
        lemma_trim_start_is_suffix(kept, start as int);
        assert(kept.subrange(start as int, end as int) =~= squeezed@.subrange(
            start as int,
            end as int,
        ));
    }
    let mut out = String::new();
    let mut k: usize = start;
    while k < end
        invariant
            start <= k <= end <= squeezed@.len(),
            out@ == squeezed@.subrange(start as int, k as int),
        decreases end - k,
    {
        out.push(squeezed[k]);
        assert(out@ =~= squeezed@.subrange(start as int, k + 1));
        k = k + 1;
    }
    proof {
        assert forall|i: int| 0 <= i < out@.len() implies is_plain(#[trigger] out@[i]) || out@[i]
            == SEPARATOR by {
            assert(out@[i] == squeezed@[start + i]);
        }
        assert forall|i: int| 0 <= i < out@.len() - 1 implies !(#[trigger] out@[i] == SEPARATOR
            && out@[i + 1] == SEPARATOR) by {
            assert(out@[i] == squeezed@[start + i]);
            assert(out@[i + 1] == squeezed@[start + i + 1]);
        }
    }
    out
}

} // verus!
