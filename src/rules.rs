//! The per-element rewrite rules, stated over sequences of characters.
use vstd::prelude::*;

verus! {

/// The path of the proxy endpoint; rewritten links point back at it.
pub const PROXY_BASE: &'static str = "/proxy";

/// `s` holds `"ad"` somewhere as a contiguous substring.
pub open spec fn contains_ad(s: Seq<char>) -> bool {
    exists|i: int| 0 <= i && i + 1 < s.len() && s[i] == 'a' && #[trigger] s[i + 1] == 'd'
}

/// `s` begins with the four characters `http`.
pub open spec fn starts_with_http(s: Seq<char>) -> bool {
    s.len() >= 4 && s[0] == 'h' && s[1] == 't' && s[2] == 't' && s[3] == 'p'
}

/// The target that routes `value` through the endpoint at `base`, with `value`
/// embedded verbatim.
pub open spec fn proxied(base: Seq<char>, value: Seq<char>) -> Seq<char> {
    base + "?url="@ + value
}

/// The value an anchor `href` or image `src` takes after the rewrite rule.
pub open spec fn rewritten_value(base: Seq<char>, value: Seq<char>) -> Seq<char> {
    if starts_with_http(value) {
        proxied(base, value)
    } else {
        value
    }
}

/// Whether the ad-stripping rule removes an element with these attributes.
pub open spec fn is_ad_element(class: Option<Seq<char>>, id: Option<Seq<char>>) -> bool {
    (class is Some && contains_ad(class->0)) || (id is Some && contains_ad(id->0))
}

/// Whether `value` contains the substring `"ad"`.
pub fn contains_ad_marker(value: &str) -> (r: bool)
    ensures
        r == contains_ad(value@),
{
    let n = value.unicode_len();
    if n < 2 {
        return false;
    }
    let mut i: usize = 0;
    while i + 1 < n
        invariant
            n == value@.len(),
            n >= 2,
            i + 1 <= n,
            forall|j: int| 0 <= j < i ==> !(value@[j] == 'a' && #[trigger] value@[j + 1] == 'd'),
        decreases n - i,
    {
        if value.get_char(i) == 'a' && value.get_char(i + 1) == 'd' {
            return true;
        }
        i = i + 1;
    }
    false
}

/// Whether `value` begins with `http`.
pub fn starts_with_http_prefix(value: &str) -> (r: bool)
    ensures
        r == starts_with_http(value@),
{
    let n = value.unicode_len();
    n >= 4 && value.get_char(0) == 'h' && value.get_char(1) == 't' && value.get_char(2) == 't'
        && value.get_char(3) == 'p'
}

/// The target that routes `value` through the endpoint at `base`.
pub fn proxy_target(base: &str, value: &str) -> (r: String)
    ensures
        r@ == proxied(base@, value@),
{
    let mut out = String::from_str(base);
    out.append("?url=");
    out.append(value);
    out
}

/// The new value of a link or image attribute, or `None` where the rule leaves
/// it as it is.
pub fn rewrite_link(base: &str, value: &str) -> (r: Option<String>)
    ensures
        r is Some <==> starts_with_http(value@),
        r is Some ==> r->0@ == proxied(base@, value@),
{
    if starts_with_http_prefix(value) {
        Some(proxy_target(base, value))
    } else {
        None
    }
}

/// The new value of a link or image attribute: proxied where it begins with
/// `http`, the same text otherwise.
pub fn rewritten_attribute(base: &str, value: &str) -> (r: String)
    ensures
        r@ == rewritten_value(base@, value@),
{
    match rewrite_link(base, value) {
        Some(target) => target,
        None => String::from_str(value),
    }
}

/// Rewriting an attribute value a second time changes nothing, provided the
/// endpoint path itself does not begin with `http`.
pub proof fn lemma_rewrite_stable(base: Seq<char>, value: Seq<char>)
    requires
        !starts_with_http(base),
    ensures
        rewritten_value(base, rewritten_value(base, value)) == rewritten_value(base, value),
{
    reveal_strlit("?url=");
    if starts_with_http(value) {
        let once = proxied(base, value);
        if base.len() < 4 {
            assert(once[base.len() as int] == '?');
        } else {
            assert(once[0] == base[0] && once[1] == base[1] && once[2] == base[2] && once[3]
                == base[3]);
        }
        assert(!starts_with_http(once));
    }
}

/// A rewritten value is the endpoint path, `?url=` and the value as it stood, and
/// a value not beginning with `http` is kept character for character.
pub proof fn lemma_rewritten_shape(value: Seq<char>)
    ensures
        starts_with_http(value) ==> rewritten_value(PROXY_BASE@, value) == "/proxy?url="@ + value,
        !starts_with_http(value) ==> rewritten_value(PROXY_BASE@, value) == value,
{
    reveal_strlit("/proxy");
    reveal_strlit("?url=");
    reveal_strlit("/proxy?url=");
    assert(PROXY_BASE@ + "?url="@ =~= "/proxy?url="@);
}

/// What the rewrite pass does with one element.
pub enum ElementAction {
    /// Drop the element together with everything inside it.
    Remove,
    /// Give the attribute `name` the new value `value`.
    SetAttribute { name: String, value: String },
    /// Leave the element as it is.
    Keep,
}

/// The view of an optional attribute value.
pub open spec fn opt_view(o: Option<&str>) -> Option<Seq<char>> {
    match o {
        Some(v) => Some(v@),
        None => None,
    }
}

/// The attribute that the link rule reads on an element with tag name `tag`.
pub open spec fn link_attribute(tag: Seq<char>) -> Option<Seq<char>> {
    if tag == "a"@ {
        Some("href"@)
    } else if tag == "img"@ {
        Some("src"@)
    } else {
        None
    }
}

/// The value of the attribute that the link rule reads, where there is one.
pub open spec fn link_value(tag: Seq<char>, href: Option<Seq<char>>, src: Option<Seq<char>>) -> Option<
    Seq<char>,
> {
    if tag == "a"@ {
        href
    } else if tag == "img"@ {
        src
    } else {
        None
    }
}

/// Whether two strings hold the same characters.
pub fn same_text(a: &str, b: &str) -> (r: bool)
    ensures
        r == (a@ == b@),
{
    let n = a.unicode_len();
    if n != b.unicode_len() {
        return false;
    }
    let mut i: usize = 0;
    while i < n
        invariant
            n == a@.len(),
            n == b@.len(),
            i <= n,
            forall|j: int| 0 <= j < i ==> a@[j] == b@[j],
        decreases n - i,
    {
        if a.get_char(i) != b.get_char(i) {
            return false;
        }
        i = i + 1;
    }
    assert(a@ =~= b@);
    true
}

/// Whether an optional attribute value contains `"ad"`.
fn marks_ad(value: Option<&str>) -> (r: bool)
    ensures
        r == (value is Some && contains_ad(value->0@)),
{
    match value {
        Some(v) => contains_ad_marker(v),
        None => false,
    }
}

/// Decides what the rewrite pass does with an element whose lower-case tag name
/// is `tag` and whose `class`, `id`, `href` and `src` attributes are given.
/// The ad rule comes first: a removed element is not rewritten.
pub fn element_action(
    base: &str,
    tag: &str,
    class: Option<&str>,
    id: Option<&str>,
    href: Option<&str>,
    src: Option<&str>,
) -> (r: ElementAction)
    ensures
        (r is Remove) == is_ad_element(opt_view(class), opt_view(id)),
        (r is SetAttribute) == (!is_ad_element(opt_view(class), opt_view(id)) && link_value(
            tag@,
            opt_view(href),
            opt_view(src),
        ) is Some && starts_with_http(link_value(tag@, opt_view(href), opt_view(src))->0)),
        r matches ElementAction::SetAttribute { name, value } ==> link_attribute(tag@) == Some(
            name@,
        ) && value@ == proxied(base@, link_value(tag@, opt_view(href), opt_view(src))->0),
{
    if marks_ad(class) || marks_ad(id) {
        return ElementAction::Remove;
    }
    let (name, value) = if same_text(tag, "a") {
        ("href", href)
    } else if same_text(tag, "img") {
        ("src", src)
    } else {
        return ElementAction::Keep;
    };
    match value {
        Some(v) => match rewrite_link(base, v) {
            Some(target) => ElementAction::SetAttribute { name: String::from_str(name), value: target },
            None => ElementAction::Keep,
        },
        None => ElementAction::Keep,
    }
}

} // verus!
