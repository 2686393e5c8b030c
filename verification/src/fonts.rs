//! Font-resolution decisions: the ranked candidate families, the cache
//! key for downloaded files, which styles still need a fetch, and the
//! fallback chain that picks a usable font triple from the outcomes of
//! the network and filesystem probes. The probes themselves (network
//! fetches, existence checks) are the caller's step; every decision made
//! from their outcomes is verified here.

use vstd::prelude::*;

verus! {

/// A weight of a candidate family that may be fetched. The regular file
/// doubles as the italic face, so no italic is ever fetched.
#[derive(Clone, Copy, PartialEq, Eq, Structural, Debug)]
pub enum FontStyle {
    Regular,
    Bold,
}

/// The style component of a cache key.
pub open spec fn spec_style_name(s: FontStyle) -> Seq<char> {
    match s {
        FontStyle::Regular => "Regular"@,
        FontStyle::Bold => "Bold"@,
    }
}

/// The style component of a cache key.
pub fn style_name(s: FontStyle) -> (r: &'static str)
    ensures
        r@ == spec_style_name(s),
{
    match s {
        FontStyle::Regular => "Regular",
        FontStyle::Bold => "Bold",
    }
}

/// The cache file name of a downloaded font, keyed by family and style.
pub open spec fn spec_cache_file_name(family: Seq<char>, style: FontStyle) -> Seq<char> {
    family + "-"@ + spec_style_name(style) + ".ttf"@
}

/// The file name under which a `(family, style)` download is cached, so
/// that repeated runs find it again under the same key.
pub fn cache_file_name(family: &str, style: FontStyle) -> (r: String)
    ensures
        r@ == spec_cache_file_name(family@, style),
{
    let mut s = String::from_str(family);
    s.append("-");
    s.append(style_name(style));
    s.append(".ttf");
    proof {
        assert(s@ =~= spec_cache_file_name(family@, style));
    }
    s
}

/// The styles of a family that still need a network fetch, given whether
/// each is already cached: an already-cached style is never fetched.
pub open spec fn spec_fetch_plan(regular_cached: bool, bold_cached: bool) -> Seq<FontStyle> {
    (if regular_cached {
        Seq::<FontStyle>::empty()
    } else {
        seq![FontStyle::Regular]
    }) + (if bold_cached {
        Seq::<FontStyle>::empty()
    } else {
        seq![FontStyle::Bold]
    })
}

/// Plans the fetches for one candidate family: exactly the styles whose
/// cache probe missed, regular first.
pub fn fetch_plan(regular_cached: bool, bold_cached: bool) -> (v: Vec<FontStyle>)
    ensures
        v@ == spec_fetch_plan(regular_cached, bold_cached),
{
    let mut v: Vec<FontStyle> = Vec::new();
    if !regular_cached {
        v.push(FontStyle::Regular);
    }
    if !bold_cached {
        v.push(FontStyle::Bold);
    }
    proof {
        assert(v@ =~= spec_fetch_plan(regular_cached, bold_cached));
    }
    v
}

/// A populated cache needs no network: when both styles of a family are
/// cached the fetch plan is empty, and in general a style is planned if
/// and only if its cache probe missed.
pub proof fn lemma_cached_fonts_need_no_fetch(regular_cached: bool, bold_cached: bool)
    ensures
        regular_cached && bold_cached ==> spec_fetch_plan(regular_cached, bold_cached).len() == 0,
        spec_fetch_plan(regular_cached, bold_cached).contains(FontStyle::Regular)
            <==> !regular_cached,
        spec_fetch_plan(regular_cached, bold_cached).contains(FontStyle::Bold) <==> !bold_cached,
{
    let plan = spec_fetch_plan(regular_cached, bold_cached);
    if !regular_cached {
        assert(plan[0] == FontStyle::Regular);
    }
    if !bold_cached {
        assert(plan[plan.len() - 1] == FontStyle::Bold);
    }
}

/// A family name escaped for a request query: every space as a plus sign,
/// every other character unchanged.
pub open spec fn spec_plus_escaped(s: Seq<char>) -> Seq<char> {
    s.map_values(|c: char| if c == ' ' { '+' } else { c })
}

/// The stylesheet a candidate family is requested under: the two weights
/// the resolver needs, with the family's spaces escaped as plus signs.
pub open spec fn spec_stylesheet_request_url(family: Seq<char>) -> Seq<char> {
    "https://fonts.googleapis.com/css2?family="@ + spec_plus_escaped(family)
        + ":wght@400;700&display=swap"@
}

/// Builds the stylesheet request address for one candidate family.
pub fn stylesheet_request_url(family: &str) -> (r: String)
    ensures
        r@ == spec_stylesheet_request_url(family@),
{
    proof {
        reveal_strlit("+");
    }
    let n = family.unicode_len();
    let mut escaped = String::new();
    let mut i: usize = 0;
    while i < n
        invariant
            i <= n,
            n == family@.len(),
            escaped@.len() == i,
            forall|k: int|
                0 <= k < i ==> escaped@[k] == (if family@[k] == ' ' {
                    '+'
                } else {
                    family@[k]
                }),
        decreases n - i,
    {
        let c = family.get_char(i);
        if c == ' ' {
            escaped.append("+");
            proof {
                reveal_strlit("+");
            }
        } else {
            escaped.append(family.substring_char(i, i + 1));
        }
        i = i + 1;
    }
    let mut r = String::from_str("https://fonts.googleapis.com/css2?family=");
    r.append(escaped.as_str());
    r.append(":wght@400;700&display=swap");
    proof {
        assert(escaped@ =~= spec_plus_escaped(family@));
        assert(r@ =~= spec_stylesheet_request_url(family@));
    }
    r
}

/// The candidate families tried against the font-delivery service, in
/// priority order.
pub open spec fn spec_font_candidates() -> Seq<Seq<char>> {
    seq!["Sarabun"@, "Noto Sans Thai"@, "Prompt"@, "Kanit"@]
}

/// The candidate families tried against the font-delivery service, in
/// priority order.
pub fn font_candidates() -> (v: Vec<String>)
    ensures
        v@.map_values(|s: String| s@) == spec_font_candidates(),
{
    let mut v: Vec<String> = Vec::new();
    v.push(String::from_str("Sarabun"));
    v.push(String::from_str("Noto Sans Thai"));
    v.push(String::from_str("Prompt"));
    v.push(String::from_str("Kanit"));
    proof {
        assert(v@.map_values(|s: String| s@) =~= spec_font_candidates());
    }
    v
}

/// One entry of the fixed table of operating-system font locations: a
/// family name and the installed regular, bold and italic files.
pub struct SystemFontEntry {
    pub name: String,
    pub regular_path: String,
    pub bold_path: String,
    pub italic_path: String,
}

/// Mathematical view of a system-font table entry.
pub struct SystemFontEntryView {
    pub name: Seq<char>,
    pub regular_path: Seq<char>,
    pub bold_path: Seq<char>,
    pub italic_path: Seq<char>,
}

impl View for SystemFontEntry {
    type V = SystemFontEntryView;

    open spec fn view(&self) -> SystemFontEntryView {
        SystemFontEntryView {
            name: self.name@,
            regular_path: self.regular_path@,
            bold_path: self.bold_path@,
            italic_path: self.italic_path@,
        }
    }
}

/// The fixed table of well-known font install locations, in priority
/// order: three entries for one desktop platform, then three for another.
pub open spec fn spec_system_font_candidates() -> Seq<SystemFontEntryView> {
    seq![
        SystemFontEntryView {
            name: "Angsana New"@,
            regular_path: "C:/Windows/Fonts/ANGSA.TTF"@,
            bold_path: "C:/Windows/Fonts/ANGSAB.TTF"@,
            italic_path: "C:/Windows/Fonts/ANGSAI.TTF"@,
        },
        SystemFontEntryView {
            name: "Cordia New"@,
            regular_path: "C:/Windows/Fonts/CORDIA.TTF"@,
            bold_path: "C:/Windows/Fonts/CORDIAB.TTF"@,
            italic_path: "C:/Windows/Fonts/CORDIAI.TTF"@,
        },
        SystemFontEntryView {
            name: "Tahoma"@,
            regular_path: "C:/Windows/Fonts/TAHOMA.TTF"@,
            bold_path: "C:/Windows/Fonts/TAHOMABD.TTF"@,
            italic_path: "C:/Windows/Fonts/TAHOMA.TTF"@,
        },
        SystemFontEntryView {
            name: "Angsana New"@,
            regular_path: "/System/Library/Fonts/Supplemental/Angsana.ttc"@,
            bold_path: "/System/Library/Fonts/Supplemental/AngsanaBold.ttc"@,
            italic_path: "/System/Library/Fonts/Supplemental/AngsanaItalic.ttc"@,
        },
        SystemFontEntryView {
            name: "Sarabun"@,
            regular_path: "/System/Library/Fonts/Supplemental/Sarabun.ttc"@,
            bold_path: "/System/Library/Fonts/Supplemental/SarabunBold.ttc"@,
            italic_path: "/System/Library/Fonts/Supplemental/SarabunItalic.ttc"@,
        },
        SystemFontEntryView {
            name: "Noto Sans Thai"@,
            regular_path: "/System/Library/Fonts/Supplemental/NotoSansThai.ttc"@,
            bold_path: "/System/Library/Fonts/Supplemental/NotoSansThaiBold.ttc"@,
            italic_path: "/System/Library/Fonts/Supplemental/NotoSansThaiItalic.ttc"@,
        },
    ]
}

/// The fixed table of well-known font install locations, in priority order.
pub fn system_font_candidates() -> (v: Vec<SystemFontEntry>)
    ensures
        v@.map_values(|e: SystemFontEntry| e@) == spec_system_font_candidates(),
{
    let mut v: Vec<SystemFontEntry> = Vec::new();
    v.push(SystemFontEntry {
        name: String::from_str("Angsana New"),
        regular_path: String::from_str("C:/Windows/Fonts/ANGSA.TTF"),
        bold_path: String::from_str("C:/Windows/Fonts/ANGSAB.TTF"),
        italic_path: String::from_str("C:/Windows/Fonts/ANGSAI.TTF"),
    });
    v.push(SystemFontEntry {
        name: String::from_str("Cordia New"),
        regular_path: String::from_str("C:/Windows/Fonts/CORDIA.TTF"),
        bold_path: String::from_str("C:/Windows/Fonts/CORDIAB.TTF"),
        italic_path: String::from_str("C:/Windows/Fonts/CORDIAI.TTF"),
    });
    v.push(SystemFontEntry {
        name: String::from_str("Tahoma"),
        regular_path: String::from_str("C:/Windows/Fonts/TAHOMA.TTF"),
        bold_path: String::from_str("C:/Windows/Fonts/TAHOMABD.TTF"),
        italic_path: String::from_str("C:/Windows/Fonts/TAHOMA.TTF"),
    });
    v.push(SystemFontEntry {
        name: String::from_str("Angsana New"),
        regular_path: String::from_str("/System/Library/Fonts/Supplemental/Angsana.ttc"),
        bold_path: String::from_str("/System/Library/Fonts/Supplemental/AngsanaBold.ttc"),
        italic_path: String::from_str("/System/Library/Fonts/Supplemental/AngsanaItalic.ttc"),
    });
    v.push(SystemFontEntry {
        name: String::from_str("Sarabun"),
        regular_path: String::from_str("/System/Library/Fonts/Supplemental/Sarabun.ttc"),
        bold_path: String::from_str("/System/Library/Fonts/Supplemental/SarabunBold.ttc"),
        italic_path: String::from_str("/System/Library/Fonts/Supplemental/SarabunItalic.ttc"),
    });
    v.push(SystemFontEntry {
        name: String::from_str("Noto Sans Thai"),
        regular_path: String::from_str("/System/Library/Fonts/Supplemental/NotoSansThai.ttc"),
        bold_path: String::from_str("/System/Library/Fonts/Supplemental/NotoSansThaiBold.ttc"),
        italic_path: String::from_str("/System/Library/Fonts/Supplemental/NotoSansThaiItalic.ttc"),
    });
    proof {
        assert(v@.map_values(|e: SystemFontEntry| e@) =~= spec_system_font_candidates());
    }
    v
}

/// The outcome of font resolution: the first network candidate whose two
/// weights were obtained, else the first system table entry whose three
/// files exist, else the built-in base font, which needs nothing.
#[derive(Clone, Copy, PartialEq, Eq, Structural, Debug)]
pub enum FontChoice {
    Downloaded { family_index: usize },
    SystemEntry { entry_index: usize },
    Builtin,
}

/// The choice dictated by the probe outcomes: `network_ok[i]` says whether
/// network candidate `i` yielded both weights, `system_ok[j]` whether all
/// three files of system table entry `j` exist. Exactly one choice is
/// valid: the first network success; else the first system success; else
/// the built-in fallback.
pub open spec fn font_choice_valid(c: FontChoice, network_ok: Seq<bool>, system_ok: Seq<bool>) -> bool {
    match c {
        FontChoice::Downloaded { family_index } => family_index < network_ok.len()
            && network_ok[family_index as int] && forall|k: int|
            0 <= k < family_index ==> !network_ok[k],
        FontChoice::SystemEntry { entry_index } => (forall|k: int|
            0 <= k < network_ok.len() ==> !network_ok[k]) && entry_index < system_ok.len()
            && system_ok[entry_index as int] && forall|k: int|
            0 <= k < entry_index ==> !system_ok[k],
        FontChoice::Builtin => (forall|k: int| 0 <= k < network_ok.len() ==> !network_ok[k])
            && forall|k: int| 0 <= k < system_ok.len() ==> !system_ok[k],
    }
}

/// Index of the first `true` in `v`, if any.
fn first_true(v: &Vec<bool>) -> (r: Option<usize>)
    ensures
        match r {
            Some(i) => i < v@.len() && v@[i as int] && forall|k: int| 0 <= k < i ==> !v@[k],
            None => forall|k: int| 0 <= k < v@.len() ==> !v@[k],
        },
{
    let mut i: usize = 0;
    while i < v.len()
        invariant
            i <= v@.len(),
            forall|k: int| 0 <= k < i ==> !v@[k],
        decreases v@.len() - i,
    {
        if v[i] {
            return Some(i);
        }
        i = i + 1;
    }
    None
}

/// Resolves the font triple from the probe outcomes, trying the network
/// candidates first, then the system table, then the built-in fallback.
/// The result is always a valid choice; it is the built-in fallback if
/// and only if every candidate failed.
pub fn find_thai_font(network_ok: &Vec<bool>, system_ok: &Vec<bool>) -> (c: FontChoice)
    ensures
        font_choice_valid(c, network_ok@, system_ok@),
        c == FontChoice::Builtin <==> (forall|k: int|
            0 <= k < network_ok@.len() ==> !network_ok@[k]) && forall|k: int|
            0 <= k < system_ok@.len() ==> !system_ok@[k],
{
    match first_true(network_ok) {
        Option::Some(i) => FontChoice::Downloaded { family_index: i },
        Option::None => match first_true(system_ok) {
            Option::Some(j) => FontChoice::SystemEntry { entry_index: j },
            Option::None => FontChoice::Builtin,
        },
    }
}

/// Font resolution is total: whatever the probe outcomes, a valid choice
/// exists, and when every network and every system candidate fails that
/// choice is the built-in fallback, which depends on nothing external.
pub proof fn lemma_font_resolution_total(network_ok: Seq<bool>, system_ok: Seq<bool>)
    requires
        network_ok.len() <= usize::MAX,
        system_ok.len() <= usize::MAX,
    ensures
        exists|c: FontChoice| font_choice_valid(c, network_ok, system_ok),
        (forall|k: int| 0 <= k < network_ok.len() ==> !network_ok[k]) && (forall|k: int|
            0 <= k < system_ok.len() ==> !system_ok[k]) ==> font_choice_valid(
            FontChoice::Builtin,
            network_ok,
            system_ok,
        ),
{
    if exists|k: int| 0 <= k < network_ok.len() && network_ok[k] {
        let i = lemma_first_true_exists(network_ok);
        assert(font_choice_valid(
            FontChoice::Downloaded { family_index: i as usize },
            network_ok,
            system_ok,
        ));
    } else if exists|k: int| 0 <= k < system_ok.len() && system_ok[k] {
        let j = lemma_first_true_exists(system_ok);
        assert(font_choice_valid(
            FontChoice::SystemEntry { entry_index: j as usize },
            network_ok,
            system_ok,
        ));
    } else {
        assert(font_choice_valid(FontChoice::Builtin, network_ok, system_ok));
    }
}

/// A sequence with a `true` has a first `true`.
proof fn lemma_first_true_exists(v: Seq<bool>) -> (i: int)
    requires
        exists|k: int| 0 <= k < v.len() && v[k],
    ensures
        0 <= i < v.len() && v[i] && forall|k: int| 0 <= k < i ==> !v[k],
    decreases v.len(),
{
    if v[0] {
        0
    } else {
        let w = v.drop_first();
        assert(exists|k: int| 0 <= k < w.len() && w[k]) by {
            let k0 = choose|k: int| 0 <= k < v.len() && v[k];
            assert(w[k0 - 1] == v[k0]);
        }
        let j = lemma_first_true_exists(w);
        assert forall|k: int| 0 <= k < j + 1 implies !v[k] by {
            if k > 0 {
                assert(w[k - 1] == v[k]);
            }
        }
        j + 1
    }
}

} // verus!
