//! The palette catalog: the named color patterns the colorizer can be
//! asked for, each pairing a 24-bit pattern with the sequence of
//! 256-color ANSI codes that stands for the same visual pattern at the
//! lower color depth, and the lookup that resolves a name or a decimal
//! index to an entry.

use vstd::prelude::*;
use vstd::string::{StrSliceExecFns, StringExecFns};
use crate::color::{ColorPattern, StripePattern};

verus! {

/// One entry of the catalog: a unique name, the nonempty list of ANSI
/// 256-color codes, and the 24-bit color pattern.
#[derive(Clone, Debug)]
pub struct PaletteEntry {
    pub name: String,
    pub ansii_codes: Vec<u8>,
    pub pattern: ColorPattern,
}

impl PaletteEntry {
    /// An entry is well formed when it has at least one ANSI code, every
    /// code is nonzero, and its pattern is well formed.
    pub open spec fn wf(&self) -> bool {
        &&& self.ansii_codes@.len() >= 1
        &&& (forall|j: int| 0 <= j < self.ansii_codes@.len() ==> 1 <= #[trigger] self.ansii_codes@[j])
        &&& self.pattern.wf()
    }
}

/// Whether two string slices hold the same characters.
fn str_eq(a: &str, b: &str) -> (r: bool)
    ensures
        r == (a@ == b@),
{
    let la: usize = a.unicode_len();
    let lb: usize = b.unicode_len();
    if la != lb {
        return false;
    }
    let mut i: usize = 0;
    while i < la
        invariant
            i <= la,
            la == a@.len(),
            lb == b@.len(),
            la == lb,
            forall|j: int| 0 <= j < i ==> a@[j] == b@[j],
        decreases la - i,
    {
        let ca: char = a.get_char(i);
        let cb: char = b.get_char(i);
        if ca != cb {
            return false;
        }
        i = i + 1;
    }
    proof {
        assert(a@ =~= b@);
    }
    true
}

/// Whether `c` is a decimal digit.
pub open spec fn is_dec_digit(c: char) -> bool {
    48 <= c as u32 <= 57
}

/// The value of the decimal digit `c`.
pub open spec fn digit_val(c: char) -> int {
    c as u32 - 48
}

/// Whether every character of `s` is a decimal digit.
pub open spec fn all_digits(s: Seq<char>) -> bool {
    forall|i: int| 0 <= i < s.len() ==> is_dec_digit(#[trigger] s[i])
}

/// The number the digit string `s` denotes, most significant first.
pub open spec fn dec_value(s: Seq<char>) -> int
    decreases s.len(),
{
    if s.len() == 0 {
        0
    } else {
        10 * dec_value(s.drop_last()) + digit_val(s.last())
    }
}

/// What parsing `s` as a non-negative decimal number yields: a value
/// only when `s` is nonempty and all digits.
pub open spec fn parse_dec_spec(s: Seq<char>) -> Option<int> {
    if s.len() > 0 && all_digits(s) {
        Some(dec_value(s))
    } else {
        None
    }
}

/// A digit string denotes a non-negative number.
proof fn lemma_dec_value_nonneg(s: Seq<char>)
    requires
        all_digits(s),
    ensures
        dec_value(s) >= 0,
    decreases s.len(),
{
    if s.len() > 0 {
        assert(all_digits(s.drop_last()));
        lemma_dec_value_nonneg(s.drop_last());
    }
}

/// Reading one more digit multiplies the value so far by ten and adds it.
proof fn lemma_dec_value_step(s: Seq<char>, i: int)
    requires
        0 <= i < s.len(),
    ensures
        dec_value(s.take(i + 1)) == 10 * dec_value(s.take(i)) + digit_val(s[i]),
{
    assert(s.take(i + 1).drop_last() =~= s.take(i));
    assert(s.take(i + 1).last() == s[i]);
}

/// The value of a digit string is at least the value of any prefix.
proof fn lemma_dec_value_grows(s: Seq<char>, i: int)
    requires
        all_digits(s),
        0 <= i <= s.len(),
    ensures
        dec_value(s.take(i)) <= dec_value(s),
    decreases s.len() - i,
{
    if i == s.len() {
        assert(s.take(i) =~= s);
    } else {
        assert(all_digits(s.take(i)));
        lemma_dec_value_nonneg(s.take(i));
        lemma_dec_value_step(s, i);
        lemma_dec_value_grows(s, i + 1);
    }
}

/// Parse `s` as a non-negative decimal index. `None` when `s` is empty,
/// holds a non-digit, or denotes a number too large for `usize`.
pub fn parse_index(s: &str) -> (r: Option<usize>)
    ensures
        (match r {
            Some(v) => parse_dec_spec(s@) == Some(v as int),
            None => parse_dec_spec(s@) is None
                || (parse_dec_spec(s@) matches Some(v) && v > usize::MAX),
        }),
{
    let len: usize = s.unicode_len();
    if len == 0 {
        return None;
    }
    let mut acc: usize = 0;
    let mut i: usize = 0;
    while i < len
        invariant
            i <= len,
            len == s@.len(),
            all_digits(s@.take(i as int)),
            acc as int == dec_value(s@.take(i as int)),
        decreases len - i,
    {
        let c: char = s.get_char(i);
        let u: u32 = c as u32;
        if u < 48 || u > 57 {
            assert(!all_digits(s@));
            return None;
        }
        let d: usize = (u - 48) as usize;
        if acc > (usize::MAX - d) / 10 {
            proof {
                lemma_dec_value_step(s@, i as int);
                vstd::arithmetic::div_mod::lemma_fundamental_div_mod(
                    (usize::MAX - d) as int, 10);
                vstd::arithmetic::div_mod::lemma_mod_bound((usize::MAX - d) as int, 10);
                if all_digits(s@) {
                    lemma_dec_value_grows(s@, i + 1);
                }
            }
            return None;
        }
        proof {
            vstd::arithmetic::div_mod::lemma_fundamental_div_mod((usize::MAX - d) as int, 10);
            vstd::arithmetic::div_mod::lemma_mod_bound((usize::MAX - d) as int, 10);
            lemma_dec_value_step(s@, i as int);
            assert(all_digits(s@.take(i as int + 1)));
        }
        acc = acc * 10 + d;
        i = i + 1;
    }
    proof {
        assert(s@.take(len as int) =~= s@);
    }
    Some(acc)
}

/// The first index at or after `from` whose entry is named `name`.
pub open spec fn first_name_match(s: Seq<PaletteEntry>, name: Seq<char>, from: int) -> Option<int>
    decreases s.len() - from,
{
    if from < 0 || from >= s.len() {
        None
    } else if s[from].name@ == name {
        Some(from)
    } else {
        first_name_match(s, name, from + 1)
    }
}

/// How a name-or-index string resolves against the catalog: an exact
/// name match wins; otherwise the string read as a decimal index, if it
/// is in range; otherwise nothing.
pub open spec fn lookup_spec(s: Seq<PaletteEntry>, name: Seq<char>) -> Option<int> {
    match first_name_match(s, name, 0) {
        Some(i) => Some(i),
        None => match parse_dec_spec(name) {
            Some(v) => if v < s.len() {
                Some(v)
            } else {
                None
            },
            None => None,
        },
    }
}

/// Resolve a palette name, or a decimal index into the catalog's
/// declaration order, to the catalog entry it denotes.
pub fn lookup_pattern<'a>(flags: &'a Vec<PaletteEntry>, name: &str) -> (r: Option<
    &'a PaletteEntry,
>)
    ensures
        (match r {
            Some(e) => lookup_spec(flags@, name@) matches Some(i) && *e == flags@[i],
            None => lookup_spec(flags@, name@) is None,
        }),
{
    let n: usize = flags.len();
    let mut i: usize = 0;
    while i < n
        invariant
            i <= n,
            n == flags@.len(),
            first_name_match(flags@, name@, 0) == first_name_match(flags@, name@, i as int),
        decreases n - i,
    {
        if str_eq(flags[i].name.as_str(), name) {
            return Some(&flags[i]);
        }
        i = i + 1;
    }
    match parse_index(name) {
        Some(v) => {
            if v < n {
                Some(&flags[v])
            } else {
                None
            }
        },
        None => None,
    }
}

/// Build one catalog entry from its parts.
fn entry(name: &str, ansii_codes: Vec<u8>, pattern: ColorPattern) -> (e: PaletteEntry)
    ensures
        e.name@ == name@,
        e.ansii_codes@ == ansii_codes@,
        e.pattern == pattern,
{
    PaletteEntry { name: String::from_str(name), ansii_codes, pattern }
}

/// Build a stripe pattern from its parts.
fn stripes(colors: Vec<u32>, factor: u32) -> (p: ColorPattern)
    ensures
        (p matches ColorPattern::Stripes(sp) && sp.colors@ == colors@ && sp.factor == factor),
{
    ColorPattern::Stripes(StripePattern { colors, factor })
}

/// The ANSI 256-color codes of the rainbow entry.
pub open spec fn rainbow_codes() -> Seq<u8> {
    seq![39u8, 38, 44, 43, 49, 48, 84, 83, 119, 118, 154, 148, 184, 178, 214, 208, 209, 203, 204, 198, 199, 163, 164, 128, 129, 93, 99, 63, 69, 33]
}

/// Whether `e` is the rainbow entry of the catalog.
pub open spec fn is_rainbow_entry(e: PaletteEntry) -> bool {
    &&& e.name@ == "rainbow"@
    &&& e.ansii_codes@ == rainbow_codes()
    &&& e.pattern is Rainbow
}

/// The ANSI 256-color codes of the transgender entry.
pub open spec fn transgender_codes() -> Seq<u8> {
    seq![81u8, 81, 217, 217, 231, 231, 217, 217, 81, 81]
}

/// The 24-bit stripe colors of the transgender entry.
pub open spec fn transgender_stripes() -> Seq<u32> {
    seq![0x55cdfcu32, 0xf7a8b8, 0xffffff, 0xf7a8b8, 0x55cdfc]
}

/// Whether `e` is the transgender entry of the catalog.
pub open spec fn is_transgender_entry(e: PaletteEntry) -> bool {
    &&& e.name@ == "transgender"@
    &&& e.ansii_codes@ == transgender_codes()
    &&& (e.pattern matches ColorPattern::Stripes(p)
        && p.colors@ == transgender_stripes()
        && p.factor == 4)
}

/// The ANSI 256-color codes of the nonbinary entry.
pub open spec fn nonbinary_codes() -> Seq<u8> {
    seq![226u8, 226, 255, 255, 93, 93, 234, 234]
}

/// The 24-bit stripe colors of the nonbinary entry.
pub open spec fn nonbinary_stripes() -> Seq<u32> {
    seq![0xffff00u32, 0xb000ff, 0xffffff, 0x000000]
}

/// Whether `e` is the nonbinary entry of the catalog.
pub open spec fn is_nonbinary_entry(e: PaletteEntry) -> bool {
    &&& e.name@ == "nonbinary"@
    &&& e.ansii_codes@ == nonbinary_codes()
    &&& (e.pattern matches ColorPattern::Stripes(p)
        && p.colors@ == nonbinary_stripes()
        && p.factor == 4)
}

/// The ANSI 256-color codes of the lesbian entry.
pub open spec fn lesbian_codes() -> Seq<u8> {
    seq![196u8, 208, 255, 170, 128]
}

/// The 24-bit stripe colors of the lesbian entry.
pub open spec fn lesbian_stripes() -> Seq<u32> {
    seq![0xff0000u32, 0xff993f, 0xffffff, 0xff8cbd, 0xff4284]
}

/// Whether `e` is the lesbian entry of the catalog.
pub open spec fn is_lesbian_entry(e: PaletteEntry) -> bool {
    &&& e.name@ == "lesbian"@
    &&& e.ansii_codes@ == lesbian_codes()
    &&& (e.pattern matches ColorPattern::Stripes(p)
        && p.colors@ == lesbian_stripes()
        && p.factor == 2)
}

/// The ANSI 256-color codes of the gay entry.
pub open spec fn gay_codes() -> Seq<u8> {
    seq![36u8, 49, 121, 255, 117, 105, 92]
}

/// The 24-bit stripe colors of the gay entry.
pub open spec fn gay_stripes() -> Seq<u32> {
    seq![0x00b685u32, 0x6bffb6, 0xffffff, 0x8be1ff, 0x8e1ae1]
}

/// Whether `e` is the gay entry of the catalog.
pub open spec fn is_gay_entry(e: PaletteEntry) -> bool {
    &&& e.name@ == "gay"@
    &&& e.ansii_codes@ == gay_codes()
    &&& (e.pattern matches ColorPattern::Stripes(p)
        && p.colors@ == gay_stripes()
        && p.factor == 6)
}

/// The ANSI 256-color codes of the pansexual entry.
pub open spec fn pansexual_codes() -> Seq<u8> {
    seq![200u8, 200, 200, 227, 227, 227, 45, 45, 45]
}

/// The 24-bit stripe colors of the pansexual entry.
pub open spec fn pansexual_stripes() -> Seq<u32> {
    seq![0xff3388u32, 0xffea00, 0x00dbff]
}

/// Whether `e` is the pansexual entry of the catalog.
pub open spec fn is_pansexual_entry(e: PaletteEntry) -> bool {
    &&& e.name@ == "pansexual"@
    &&& e.ansii_codes@ == pansexual_codes()
    &&& (e.pattern matches ColorPattern::Stripes(p)
        && p.colors@ == pansexual_stripes()
        && p.factor == 8)
}

/// The ANSI 256-color codes of the bisexual entry.
pub open spec fn bisexual_codes() -> Seq<u8> {
    seq![162u8, 162, 162, 129, 129, 27, 27, 27]
}

/// The 24-bit stripe colors of the bisexual entry.
pub open spec fn bisexual_stripes() -> Seq<u32> {
    seq![0xff3b7bu32, 0xff3b7b, 0xd06bcc, 0x3b72ff, 0x3b72ff]
}

/// Whether `e` is the bisexual entry of the catalog.
pub open spec fn is_bisexual_entry(e: PaletteEntry) -> bool {
    &&& e.name@ == "bisexual"@
    &&& e.ansii_codes@ == bisexual_codes()
    &&& (e.pattern matches ColorPattern::Stripes(p)
        && p.colors@ == bisexual_stripes()
        && p.factor == 4)
}

/// The ANSI 256-color codes of the gender fluid entry.
pub open spec fn gender_fluid_codes() -> Seq<u8> {
    seq![219u8, 219, 255, 255, 128, 128, 234, 234, 20, 20]
}

/// The 24-bit stripe colors of the gender fluid entry.
pub open spec fn gender_fluid_stripes() -> Seq<u32> {
    seq![0xffa0bcu32, 0xffffff, 0xc600e4, 0x000000, 0x4e3cbb]
}

/// Whether `e` is the gender fluid entry of the catalog.
pub open spec fn is_gender_fluid_entry(e: PaletteEntry) -> bool {
    &&& e.name@ == "gender_fluid"@
    &&& e.ansii_codes@ == gender_fluid_codes()
    &&& (e.pattern matches ColorPattern::Stripes(p)
        && p.colors@ == gender_fluid_stripes()
        && p.factor == 2)
}

/// The ANSI 256-color codes of the asexual entry.
pub open spec fn asexual_codes() -> Seq<u8> {
    seq![233u8, 233, 247, 247, 255, 255, 5, 5]
}

/// The 24-bit stripe colors of the asexual entry.
pub open spec fn asexual_stripes() -> Seq<u32> {
    seq![0x000000u32, 0xa3a3a3, 0xffffff, 0x800080]
}

/// Whether `e` is the asexual entry of the catalog.
pub open spec fn is_asexual_entry(e: PaletteEntry) -> bool {
    &&& e.name@ == "asexual"@
    &&& e.ansii_codes@ == asexual_codes()
    &&& (e.pattern matches ColorPattern::Stripes(p)
        && p.colors@ == asexual_stripes()
        && p.factor == 4)
}

/// The ANSI 256-color codes of the unlabeled entry.
pub open spec fn unlabeled_codes() -> Seq<u8> {
    seq![194u8, 194, 255, 255, 195, 195, 223, 223]
}

/// The 24-bit stripe colors of the unlabeled entry.
pub open spec fn unlabeled_stripes() -> Seq<u32> {
    seq![0xe6f9e3u32, 0xfdfdfb, 0xdeeff9, 0xfae1c2]
}

/// Whether `e` is the unlabeled entry of the catalog.
pub open spec fn is_unlabeled_entry(e: PaletteEntry) -> bool {
    &&& e.name@ == "unlabeled"@
    &&& e.ansii_codes@ == unlabeled_codes()
    &&& (e.pattern matches ColorPattern::Stripes(p)
        && p.colors@ == unlabeled_stripes()
        && p.factor == 4)
}

/// The ANSI 256-color codes of the aromantic entry.
pub open spec fn aromantic_codes() -> Seq<u8> {
    seq![34u8, 34, 120, 120, 255, 255, 247, 247, 233, 233]
}

/// The 24-bit stripe colors of the aromantic entry.
pub open spec fn aromantic_stripes() -> Seq<u32> {
    seq![0x3da542u32, 0xa8d379, 0xffffff, 0xa9a9a9, 0x000000]
}

/// Whether `e` is the aromantic entry of the catalog.
pub open spec fn is_aromantic_entry(e: PaletteEntry) -> bool {
    &&& e.name@ == "aromantic"@
    &&& e.ansii_codes@ == aromantic_codes()
    &&& (e.pattern matches ColorPattern::Stripes(p)
        && p.colors@ == aromantic_stripes()
        && p.factor == 1)
}

/// The ANSI 256-color codes of the aroace entry.
pub open spec fn aroace_codes() -> Seq<u8> {
    seq![208u8, 208, 220, 220, 255, 255, 75, 75, 62, 62]
}

/// The 24-bit stripe colors of the aroace entry.
pub open spec fn aroace_stripes() -> Seq<u32> {
    seq![0xe28d00u32, 0xeccd00, 0xffffff, 0x62afdd, 0x203756]
}

/// Whether `e` is the aroace entry of the catalog.
pub open spec fn is_aroace_entry(e: PaletteEntry) -> bool {
    &&& e.name@ == "aroace"@
    &&& e.ansii_codes@ == aroace_codes()
    &&& (e.pattern matches ColorPattern::Stripes(p)
        && p.colors@ == aroace_stripes()
        && p.factor == 1)
}

/// The rainbow entry of the catalog, its first.
pub fn rainbow_entry() -> (e: PaletteEntry)
    ensures
        is_rainbow_entry(e),
        e.wf(),
{
    let e = entry(
        "rainbow",
        vec![39u8, 38, 44, 43, 49, 48, 84, 83, 119, 118, 154, 148, 184, 178, 214, 208, 209, 203,
            204, 198, 199, 163, 164, 128, 129, 93, 99, 63, 69, 33],
        ColorPattern::Rainbow,
    );
    proof {
        assert(e.ansii_codes@ =~= rainbow_codes());
    }
    e
}

/// The fixed catalog of color patterns, in declaration order: the
/// rainbow first, then the named flags.
pub fn flags() -> (r: Vec<PaletteEntry>)
    ensures
        r@.len() == 12,
        is_rainbow_entry(r@[0]),
        is_transgender_entry(r@[1]),
        is_nonbinary_entry(r@[2]),
        is_lesbian_entry(r@[3]),
        is_gay_entry(r@[4]),
        is_pansexual_entry(r@[5]),
        is_bisexual_entry(r@[6]),
        is_gender_fluid_entry(r@[7]),
        is_asexual_entry(r@[8]),
        is_unlabeled_entry(r@[9]),
        is_aromantic_entry(r@[10]),
        is_aroace_entry(r@[11]),
        forall|i: int| 0 <= i < r@.len() ==> (#[trigger] r@[i]).wf(),
{
    let mut v: Vec<PaletteEntry> = Vec::new();
    v.push(rainbow_entry());
    v.push(entry("transgender", vec![81u8, 81, 217, 217, 231, 231, 217, 217, 81, 81], stripes(vec![0x55cdfcu32, 0xf7a8b8, 0xffffff, 0xf7a8b8, 0x55cdfc], 4)));
    v.push(entry("nonbinary", vec![226u8, 226, 255, 255, 93, 93, 234, 234], stripes(vec![0xffff00u32, 0xb000ff, 0xffffff, 0x000000], 4)));
    v.push(entry("lesbian", vec![196u8, 208, 255, 170, 128], stripes(vec![0xff0000u32, 0xff993f, 0xffffff, 0xff8cbd, 0xff4284], 2)));
    v.push(entry("gay", vec![36u8, 49, 121, 255, 117, 105, 92], stripes(vec![0x00b685u32, 0x6bffb6, 0xffffff, 0x8be1ff, 0x8e1ae1], 6)));
    v.push(entry("pansexual", vec![200u8, 200, 200, 227, 227, 227, 45, 45, 45], stripes(vec![0xff3388u32, 0xffea00, 0x00dbff], 8)));
    v.push(entry("bisexual", vec![162u8, 162, 162, 129, 129, 27, 27, 27], stripes(vec![0xff3b7bu32, 0xff3b7b, 0xd06bcc, 0x3b72ff, 0x3b72ff], 4)));
    v.push(entry("gender_fluid", vec![219u8, 219, 255, 255, 128, 128, 234, 234, 20, 20], stripes(vec![0xffa0bcu32, 0xffffff, 0xc600e4, 0x000000, 0x4e3cbb], 2)));
    v.push(entry("asexual", vec![233u8, 233, 247, 247, 255, 255, 5, 5], stripes(vec![0x000000u32, 0xa3a3a3, 0xffffff, 0x800080], 4)));
    v.push(entry("unlabeled", vec![194u8, 194, 255, 255, 195, 195, 223, 223], stripes(vec![0xe6f9e3u32, 0xfdfdfb, 0xdeeff9, 0xfae1c2], 4)));
    v.push(entry("aromantic", vec![34u8, 34, 120, 120, 255, 255, 247, 247, 233, 233], stripes(vec![0x3da542u32, 0xa8d379, 0xffffff, 0xa9a9a9, 0x000000], 1)));
    v.push(entry("aroace", vec![208u8, 208, 220, 220, 255, 255, 75, 75, 62, 62], stripes(vec![0xe28d00u32, 0xeccd00, 0xffffff, 0x62afdd, 0x203756], 1)));
    proof {
        assert(v@[0].ansii_codes@ =~= rainbow_codes());
        assert(v@[1].ansii_codes@ =~= transgender_codes());
        assert(v@[1].pattern matches ColorPattern::Stripes(p) && p.colors@ =~= transgender_stripes());
        assert(v@[2].ansii_codes@ =~= nonbinary_codes());
        assert(v@[2].pattern matches ColorPattern::Stripes(p) && p.colors@ =~= nonbinary_stripes());
        assert(v@[3].ansii_codes@ =~= lesbian_codes());
        assert(v@[3].pattern matches ColorPattern::Stripes(p) && p.colors@ =~= lesbian_stripes());
        assert(v@[4].ansii_codes@ =~= gay_codes());
        assert(v@[4].pattern matches ColorPattern::Stripes(p) && p.colors@ =~= gay_stripes());
        assert(v@[5].ansii_codes@ =~= pansexual_codes());
        assert(v@[5].pattern matches ColorPattern::Stripes(p) && p.colors@ =~= pansexual_stripes());
        assert(v@[6].ansii_codes@ =~= bisexual_codes());
        assert(v@[6].pattern matches ColorPattern::Stripes(p) && p.colors@ =~= bisexual_stripes());
        assert(v@[7].ansii_codes@ =~= gender_fluid_codes());
        assert(v@[7].pattern matches ColorPattern::Stripes(p) && p.colors@ =~= gender_fluid_stripes());
        assert(v@[8].ansii_codes@ =~= asexual_codes());
        assert(v@[8].pattern matches ColorPattern::Stripes(p) && p.colors@ =~= asexual_stripes());
        assert(v@[9].ansii_codes@ =~= unlabeled_codes());
        assert(v@[9].pattern matches ColorPattern::Stripes(p) && p.colors@ =~= unlabeled_stripes());
        assert(v@[10].ansii_codes@ =~= aromantic_codes());
        assert(v@[10].pattern matches ColorPattern::Stripes(p) && p.colors@ =~= aromantic_stripes());
        assert(v@[11].ansii_codes@ =~= aroace_codes());
        assert(v@[11].pattern matches ColorPattern::Stripes(p) && p.colors@ =~= aroace_stripes());
    }
    v
}

/// No two catalog entries share a name: an entry resolved by name is
/// unambiguous.
pub proof fn lemma_catalog_names_distinct(s: Seq<PaletteEntry>)
    requires
        s.len() == 12,
        is_rainbow_entry(s[0]),
        is_transgender_entry(s[1]),
        is_nonbinary_entry(s[2]),
        is_lesbian_entry(s[3]),
        is_gay_entry(s[4]),
        is_pansexual_entry(s[5]),
        is_bisexual_entry(s[6]),
        is_gender_fluid_entry(s[7]),
        is_asexual_entry(s[8]),
        is_unlabeled_entry(s[9]),
        is_aromantic_entry(s[10]),
        is_aroace_entry(s[11]),
    ensures
        forall|i: int, j: int| 0 <= i < j < 12 ==> s[i].name@ != s[j].name@,
{
    broadcast use vstd::string::group_string_axioms;

    reveal_strlit("rainbow");
    reveal_strlit("transgender");
    reveal_strlit("nonbinary");
    reveal_strlit("lesbian");
    reveal_strlit("gay");
    reveal_strlit("pansexual");
    reveal_strlit("bisexual");
    reveal_strlit("gender_fluid");
    reveal_strlit("asexual");
    reveal_strlit("unlabeled");
    reveal_strlit("aromantic");
    reveal_strlit("aroace");
    assert("rainbow"@.len() == 7);
    assert("transgender"@.len() == 11);
    assert("nonbinary"@.len() == 9);
    assert("lesbian"@.len() == 7);
    assert("gay"@.len() == 3);
    assert("pansexual"@.len() == 9);
    assert("bisexual"@.len() == 8);
    assert("gender_fluid"@.len() == 12);
    assert("asexual"@.len() == 7);
    assert("unlabeled"@.len() == 9);
    assert("aromantic"@.len() == 9);
    assert("aroace"@.len() == 6);
    assert("rainbow"@[0] == 'r');
    assert("transgender"@[0] == 't');
    assert("nonbinary"@[0] == 'n');
    assert("lesbian"@[0] == 'l');
    assert("gay"@[0] == 'g');
    assert("pansexual"@[0] == 'p');
    assert("bisexual"@[0] == 'b');
    assert("gender_fluid"@[0] == 'g');
    assert("asexual"@[0] == 'a');
    assert("unlabeled"@[0] == 'u');
    assert("aromantic"@[0] == 'a');
    assert("aroace"@[0] == 'a');
}

/// The digit character for the value `d` of a decimal digit.
pub open spec fn digit_char_spec(d: int) -> char {
    if d == 0 { '0' }
    else if d == 1 { '1' }
    else if d == 2 { '2' }
    else if d == 3 { '3' }
    else if d == 4 { '4' }
    else if d == 5 { '5' }
    else if d == 6 { '6' }
    else if d == 7 { '7' }
    else if d == 8 { '8' }
    else { '9' }
}

/// The decimal rendering of `n`, most significant digit first.
pub open spec fn dec_chars_spec(n: int) -> Seq<char>
    recommends
        n >= 0,
    decreases n,
{
    if n < 10 {
        seq![digit_char_spec(n)]
    } else {
        dec_chars_spec(n / 10) + seq![digit_char_spec(n % 10)]
    }
}

/// The one-character string for the decimal digit `d`.
fn digit_str(d: usize) -> (r: &'static str)
    requires
        d <= 9,
    ensures
        r@ == seq![digit_char_spec(d as int)],
{
    let s: &'static str = match d {
        0 => "0",
        1 => "1",
        2 => "2",
        3 => "3",
        4 => "4",
        5 => "5",
        6 => "6",
        7 => "7",
        8 => "8",
        _ => "9",
    };
    proof {
        reveal_strlit("0");
        reveal_strlit("1");
        reveal_strlit("2");
        reveal_strlit("3");
        reveal_strlit("4");
        reveal_strlit("5");
        reveal_strlit("6");
        reveal_strlit("7");
        reveal_strlit("8");
        reveal_strlit("9");
        assert(s@ =~= seq![digit_char_spec(d as int)]);
    }
    s
}

/// Append the decimal rendering of `n` to `out`.
fn push_dec_str(out: &mut String, n: usize)
    ensures
        final(out)@ == old(out)@ + dec_chars_spec(n as int),
    decreases n,
{
    if n < 10 {
        out.append(digit_str(n));
    } else {
        proof {
            vstd::arithmetic::div_mod::lemma_fundamental_div_mod(n as int, 10);
            vstd::arithmetic::div_mod::lemma_mod_bound(n as int, 10);
        }
        push_dec_str(out, n / 10);
        out.append(digit_str(n % 10));
        proof {
            assert(final(out)@ =~= old(out)@ + dec_chars_spec(n as int));
        }
    }
}

/// The fixed first part of the help text, through the flag option's
/// own description.
pub open spec fn helpstr_head_spec() -> Seq<char> {
    "Usage: queercat [OPTION...] [--] [FILE...]\n\nConcatenate FILE(s), or standard input, to standard output.\nWith no FILE, or when FILE is -, read standard input.\n\n                --flag <d>, -f <d>: Choose colors to use (default: 0 (rainbow)):\n"@
}

/// The indentation of each catalog line of the help text.
pub open spec fn helpstr_indent_spec() -> Seq<char> {
    "                                      "@
}

/// The fixed last part of the help text: the remaining options and the
/// examples.
pub open spec fn helpstr_tail_spec() -> Seq<char> {
    "--horizontal-frequency <d>, -h <d>: Horizontal rainbow frequency (default: 0.23)\n  --vertical-frequency <d>, -v <d>: Vertical rainbow frequency (default: 0.1)\n              --offset <d>, -o <d>: Offset of the start of the flag\n                 --force-color, -F: Force color even when stdout is not a tty\n                      --random, -r: Random colors\n                       --24bit, -b: Output in 24-bit \"true\" RGB mode (slower and\n                                    not supported by all terminals)\n                         --version: Print version and exit\n                            --help: Show this message\n\nExamples:\n  queercat f - g      Output f's contents, then stdin, then g's contents.\n  queercat            Copy standard input to standard output.\n  fortune | queercat  Display a rainbow cookie.\n"@
}

/// The help line naming catalog entry `e`, which sits at index `i`.
pub open spec fn help_line_spec(e: PaletteEntry, i: int) -> Seq<char> {
    helpstr_indent_spec() + e.name@ + ": "@ + dec_chars_spec(i) + "\n"@
}

/// The help lines for the first `i` catalog entries, in order.
pub open spec fn help_lines_spec(s: Seq<PaletteEntry>, i: int) -> Seq<char>
    decreases i,
{
    if i <= 0 {
        Seq::empty()
    } else {
        help_lines_spec(s, i - 1) + help_line_spec(s[i - 1], i - 1)
    }
}

/// The whole help text for the catalog `s`: usage, one line per entry
/// naming it and its index, then the remaining options and examples.
pub open spec fn helpstr_spec(s: Seq<PaletteEntry>) -> Seq<char> {
    helpstr_head_spec() + help_lines_spec(s, s.len() as int) + helpstr_tail_spec()
}

/// Build the help text for the catalog `flags`: usage guidance with one
/// line for every entry, naming it and the index it can be selected by.
pub fn build_helpstr(flags: &Vec<PaletteEntry>) -> (r: String)
    ensures
        r@ == helpstr_spec(flags@),
{
    let mut s: String = String::new();
    s.append("Usage: queercat [OPTION...] [--] [FILE...]\n\nConcatenate FILE(s), or standard input, to standard output.\nWith no FILE, or when FILE is -, read standard input.\n\n                --flag <d>, -f <d>: Choose colors to use (default: 0 (rainbow)):\n");
    let n: usize = flags.len();
    let mut i: usize = 0;
    while i < n
        invariant
            i <= n,
            n == flags@.len(),
            s@ == helpstr_head_spec() + help_lines_spec(flags@, i as int),
        decreases n - i,
    {
        s.append("                                      ");
        s.append(flags[i].name.as_str());
        s.append(": ");
        push_dec_str(&mut s, i);
        s.append("\n");
        proof {
            assert(s@ =~= helpstr_head_spec() + help_lines_spec(flags@, i as int + 1));
        }
        i = i + 1;
    }
    s.append("--horizontal-frequency <d>, -h <d>: Horizontal rainbow frequency (default: 0.23)\n  --vertical-frequency <d>, -v <d>: Vertical rainbow frequency (default: 0.1)\n              --offset <d>, -o <d>: Offset of the start of the flag\n                 --force-color, -F: Force color even when stdout is not a tty\n                      --random, -r: Random colors\n                       --24bit, -b: Output in 24-bit \"true\" RGB mode (slower and\n                                    not supported by all terminals)\n                         --version: Print version and exit\n                            --help: Show this message\n\nExamples:\n  queercat f - g      Output f's contents, then stdin, then g's contents.\n  queercat            Copy standard input to standard output.\n  fortune | queercat  Display a rainbow cookie.\n");
    s
}

} // verus!

