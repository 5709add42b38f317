//! The emoji that the command line tool puts before well-known values in
//! its tables.
use crate::text::str_equals;
use crate::text_rules::{
    has_prefix, parse_i32, read_i32, starts_with, trim, trimmed, utf8_len, utf8_len_is,
};
use vstd::prelude::*;
use vstd::string::*;

verus! {

/// What `str::to_lowercase` returns for a text: its Unicode lowercase
/// mapping, character by character, with the final-sigma rule.
pub uninterp spec fn lowercase(s: Seq<char>) -> Seq<char>;

/// The lowercase form of an ASCII character: `A` to `Z` become `a` to `z`,
/// every other character stays.
pub open spec fn ascii_lower_char(c: char) -> char {
    if 'A' <= c && c <= 'Z' {
        ((c as int) + 32) as char
    } else {
        c
    }
}

/// Whether every character of a text is ASCII.
pub open spec fn is_ascii_text(s: Seq<char>) -> bool {
    forall|i: int| 0 <= i < s.len() ==> (#[trigger] s[i] as int) < 128
}

/// The lowercase form of a text as `str::to_lowercase` gives it: for an
/// ASCII text, each letter `A` to `Z` lowered and every other character
/// kept; for any other text, its Unicode lowercase mapping.
pub open spec fn lowered(s: Seq<char>) -> Seq<char> {
    if is_ascii_text(s) {
        s.map_values(|c: char| ascii_lower_char(c))
    } else {
        lowercase(s)
    }
}

/// Calls `str::to_lowercase`, which maps each character to its Unicode
/// lowercase form. The contract names the result and states the ASCII
/// case, where the Unicode mapping lowers `A` to `Z` and keeps every other
/// character; of other texts it says no more.
#[verifier::external_body]
pub(crate) fn to_lowercase(s: &str) -> (r: String)
    ensures
        r@ == lowercase(s@),
        r@ == lowered(s@),
{
    s.to_lowercase()
}

/// Whether `char::is_numeric` holds of a character: whether its general
/// category is one of those for numbers.
pub uninterp spec fn is_numeric_char(c: char) -> bool;

/// Whether a character is numeric as `char::is_numeric` says: among ASCII
/// characters exactly the digits `0` to `9`; beyond ASCII, whether its
/// general category is one of those for numbers.
pub open spec fn numeric_char(c: char) -> bool {
    if (c as int) < 128 {
        '0' <= c && c <= '9'
    } else {
        is_numeric_char(c)
    }
}

/// Calls `char::is_numeric`. The contract names the result and states
/// that among ASCII characters exactly the digits are numeric.
#[verifier::external_body]
fn is_numeric(c: char) -> (b: bool)
    ensures
        b == is_numeric_char(c),
        b == numeric_char(c),
{
    c.is_numeric()
}

/// The emoji form of the values matched as a whole.
pub open spec fn exact_emoji(s: Seq<char>) -> Option<Seq<char>> {
    if s == "true"@ {
        Some("✅"@)
    } else if s == "false"@ {
        Some("❌"@)
    } else if s == "yes"@ {
        Some("✅"@)
    } else if s == "no"@ {
        Some("❌"@)
    } else if s == "ready"@ {
        Some("✅ Ready"@)
    } else if s == "not ready"@ {
        Some("❌ Not Ready"@)
    } else if s == "available"@ {
        Some("✅ Available"@)
    } else if s == "running"@ {
        Some("🟢 Running"@)
    } else if s == "pending"@ {
        Some("🟡 Pending"@)
    } else if s == "succeeded"@ {
        Some("✅ Succeeded"@)
    } else if s == "failed"@ {
        Some("❌ Failed"@)
    } else if s == "error"@ {
        Some("❌ Error"@)
    } else if s == "terminating"@ {
        Some("🟠 Terminating"@)
    } else if s == "unknown"@ {
        Some("❓ Unknown"@)
    } else if s == "not found"@ {
        Some("❓ Not Found"@)
    } else if s == "accepted"@ {
        Some("✅ Accepted"@)
    } else if s == "rejected"@ {
        Some("❌ Rejected"@)
    } else if s == "programmed"@ {
        Some("🔧 Programmed"@)
    } else if s == "not programmed"@ {
        Some("⚠️ Not Programmed"@)
    } else if s == "resolved"@ {
        Some("✅ Resolved"@)
    } else if s == "not resolved"@ {
        Some("❌ Not Resolved"@)
    } else if s == "attached"@ {
        Some("🔗 Attached"@)
    } else if s == "not attached"@ {
        Some("🔓 Not Attached"@)
    } else {
        None
    }
}

/// The emoji for a service type, by the type's name at the start.
pub open spec fn service_type_emoji(s: Seq<char>) -> Option<Seq<char>> {
    if has_prefix(s, "clusterip"@) {
        Some("🔒 "@)
    } else if has_prefix(s, "nodeport"@) {
        Some("🌐 "@)
    } else if has_prefix(s, "loadbalancer"@) {
        Some("⚖️ "@)
    } else if has_prefix(s, "externalname"@) {
        Some("🔗 "@)
    } else {
        None
    }
}

/// Whether a text holds a slash and only numeric characters and slashes.
pub open spec fn is_ratio_shaped(s: Seq<char>) -> bool {
    &&& s.contains('/')
    &&& forall|i: int| 0 <= i < s.len() ==> numeric_char(#[trigger] s[i]) || s[i] == '/'
}

/// The positions of the slashes of a text, in order.
pub open spec fn slash_positions(s: Seq<char>) -> Seq<int>
    decreases s.len(),
{
    if s.len() == 0 {
        Seq::empty()
    } else {
        let rest = slash_positions(s.drop_last());
        if s.last() == '/' {
            rest.push(s.len() - 1)
        } else {
            rest
        }
    }
}

/// A ready count over a total: checked when both parts read as numbers,
/// crossed when none is ready, amber otherwise; the text itself when it is
/// not two numbers around one slash.
pub open spec fn ratio_text(s: Seq<char>) -> Seq<char> {
    if slash_positions(s).len() == 1 {
        let k = slash_positions(s)[0];
        match (parse_i32(s.subrange(0, k)), parse_i32(s.subrange(k + 1, s.len() as int))) {
            (Some(ready), Some(total)) => if ready == total && ready > 0 {
                "✅ "@ + s
            } else if ready == 0 {
                "❌ "@ + s
            } else {
                "🟡 "@ + s
            },
            _ => s,
        }
    } else {
        s
    }
}

/// Whether every character of a text is numeric.
pub open spec fn all_numeric(s: Seq<char>) -> bool {
    forall|i: int| 0 <= i < s.len() ==> numeric_char(#[trigger] s[i])
}

/// Whether a text looks like an HTTP status code of the class whose first
/// digit is given: three bytes, all numeric, starting with that digit.
pub open spec fn is_status_code_of(s: Seq<char>, first: char) -> bool {
    s.len() > 0 && s[0] == first && utf8_len(s) == 3 && all_numeric(s)
}

/// The displayed form of a value, given the value lowercased and trimmed.
/// Well-known values get their emoji form; service types, ready counts,
/// HTTP status codes and numbers get an emoji before the lowercased text;
/// anything else is the value as it was given.
pub open spec fn format_spec(s: Seq<char>, value: Seq<char>) -> Seq<char> {
    match exact_emoji(s) {
        Some(e) => e,
        None => match service_type_emoji(s) {
            Some(e) => e + s,
            None => if is_ratio_shaped(s) {
                ratio_text(s)
            } else if is_status_code_of(s, '2') {
                "✅ "@ + s
            } else if is_status_code_of(s, '3') {
                "🔄 "@ + s
            } else if is_status_code_of(s, '4') {
                "⚠️ "@ + s
            } else if is_status_code_of(s, '5') {
                "❌ "@ + s
            } else if s == "0"@ {
                "✅ 0"@
            } else {
                match parse_i32(s) {
                    Some(n) => if n > 0 {
                        "⚠️ "@ + s
                    } else {
                        "✅ "@ + s
                    },
                    None => value,
                }
            },
        },
    }
}

fn concat(prefix: &str, s: &str) -> (r: String)
    ensures
        r@ == prefix@ + s@,
{
    let mut r = String::from_str(prefix);
    r.append(s);
    r
}

fn exact_emoji_of(s: &String) -> (r: Option<String>)
    ensures
        match r {
            Some(e) => exact_emoji(s@) == Some(e@),
            None => exact_emoji(s@) is None,
        },
{
    let e = if str_equals(s, "true") {
        "✅"
    } else if str_equals(s, "false") {
        "❌"
    } else if str_equals(s, "yes") {
        "✅"
    } else if str_equals(s, "no") {
        "❌"
    } else if str_equals(s, "ready") {
        "✅ Ready"
    } else if str_equals(s, "not ready") {
        "❌ Not Ready"
    } else if str_equals(s, "available") {
        "✅ Available"
    } else if str_equals(s, "running") {
        "🟢 Running"
    } else if str_equals(s, "pending") {
        "🟡 Pending"
    } else if str_equals(s, "succeeded") {
        "✅ Succeeded"
    } else if str_equals(s, "failed") {
        "❌ Failed"
    } else if str_equals(s, "error") {
        "❌ Error"
    } else if str_equals(s, "terminating") {
        "🟠 Terminating"
    } else if str_equals(s, "unknown") {
        "❓ Unknown"
    } else if str_equals(s, "not found") {
        "❓ Not Found"
    } else if str_equals(s, "accepted") {
        "✅ Accepted"
    } else if str_equals(s, "rejected") {
        "❌ Rejected"
    } else if str_equals(s, "programmed") {
        "🔧 Programmed"
    } else if str_equals(s, "not programmed") {
        "⚠️ Not Programmed"
    } else if str_equals(s, "resolved") {
        "✅ Resolved"
    } else if str_equals(s, "not resolved") {
        "❌ Not Resolved"
    } else if str_equals(s, "attached") {
        "🔗 Attached"
    } else if str_equals(s, "not attached") {
        "🔓 Not Attached"
    } else {
        return None;
    };
    Some(String::from_str(e))
}

fn service_type_emoji_of(s: &str) -> (r: Option<&'static str>)
    ensures
        match r {
            Some(e) => service_type_emoji(s@) == Some(e@),
            None => service_type_emoji(s@) is None,
        },
{
    if starts_with(s, "clusterip") {
        Some("🔒 ")
    } else if starts_with(s, "nodeport") {
        Some("🌐 ")
    } else if starts_with(s, "loadbalancer") {
        Some("⚖️ ")
    } else if starts_with(s, "externalname") {
        Some("🔗 ")
    } else {
        None
    }
}

fn ratio_shaped(s: &str) -> (b: bool)
    ensures
        b == is_ratio_shaped(s@),
{
    let n = s.unicode_len();
    let mut has_slash = false;
    let mut i: usize = 0;
    while i < n
        invariant
            i <= n,
            n == s@.len(),
            has_slash == exists|j: int| 0 <= j < i && s@[j] == '/',
            forall|j: int| 0 <= j < i ==> numeric_char(#[trigger] s@[j]) || s@[j] == '/',
        decreases n - i,
    {
        let c = s.get_char(i);
        if c == '/' {
            has_slash = true;
        } else if !is_numeric(c) {
            return false;
        }
        i += 1;
    }
    proof {
        if has_slash {
            let j = choose|j: int| 0 <= j < n && s@[j] == '/';
            assert(s@.contains(s@[j]));
        }
    }
    has_slash
}

fn ratio_text_of(s: &str) -> (r: String)
    ensures
        r@ == ratio_text(s@),
{
    let n = s.unicode_len();
    let mut count: usize = 0;
    let mut first: usize = 0;
    let mut i: usize = 0;
    while i < n
        invariant
            i <= n,
            n == s@.len(),
            count == slash_positions(s@.take(i as int)).len(),
            count <= i,
            count > 0 ==> first == slash_positions(s@.take(i as int))[0] && first < i,
        decreases n - i,
    {
        assert(s@.take(i + 1).drop_last() =~= s@.take(i as int));
        if s.get_char(i) == '/' {
            if count == 0 {
                first = i;
            }
            count += 1;
        }
        i += 1;
    }
    assert(s@.take(n as int) =~= s@);
    if count != 1 {
        return String::from_str(s);
    }
    let ready = read_i32(s.substring_char(0, first));
    let total = read_i32(s.substring_char(first + 1, n));
    match (ready, total) {
        (Some(r), Some(t)) => if r == t && r > 0 {
            concat("✅ ", s)
        } else if r == 0 {
            concat("❌ ", s)
        } else {
            concat("🟡 ", s)
        },
        _ => String::from_str(s),
    }
}

fn numeric_text(s: &str) -> (b: bool)
    ensures
        b == all_numeric(s@),
{
    let n = s.unicode_len();
    let mut i: usize = 0;
    while i < n
        invariant
            i <= n,
            n == s@.len(),
            forall|j: int| 0 <= j < i ==> numeric_char(#[trigger] s@[j]),
        decreases n - i,
    {
        if !is_numeric(s.get_char(i)) {
            return false;
        }
        i += 1;
    }
    true
}

fn status_code_of(s: &str, first: char) -> (b: bool)
    ensures
        b == is_status_code_of(s@, first),
{
    s.unicode_len() > 0 && s.get_char(0) == first && utf8_len_is(s, 3) && numeric_text(s)
}

/// The displayed form of a value, given the value lowercased and trimmed
/// and the value itself.
pub fn format_lowered_value(s: &String, value: &str) -> (r: String)
    ensures
        r@ == format_spec(s@, value@),
{
    if let Some(e) = exact_emoji_of(s) {
        return e;
    }
    let t = s.as_str();
    if let Some(e) = service_type_emoji_of(t) {
        return concat(e, t);
    }
    if ratio_shaped(t) {
        return ratio_text_of(t);
    }
    if status_code_of(t, '2') {
        return concat("✅ ", t);
    }
    if status_code_of(t, '3') {
        return concat("🔄 ", t);
    }
    if status_code_of(t, '4') {
        return concat("⚠️ ", t);
    }
    if status_code_of(t, '5') {
        return concat("❌ ", t);
    }
    if str_equals(s, "0") {
        return String::from_str("✅ 0");
    }
    match read_i32(t) {
        Some(n) => if n > 0 {
            concat("⚠️ ", t)
        } else {
            concat("✅ ", t)
        },
        None => String::from_str(value),
    }
}

/// The emoji formatting of table values.
pub struct EmojiFormatter;

impl EmojiFormatter {
    /// The displayed form of a value: it is lowercased and trimmed of
    /// whitespace, then matched.
    pub fn format_value(value: &str) -> (r: String)
        ensures
            r@ == format_spec(trim(lowered(value@)), value@),
    {
        let lowered = to_lowercase(value);
        let s = trimmed(lowered.as_str());
        format_lowered_value(&s, value)
    }
}

} // verus!
