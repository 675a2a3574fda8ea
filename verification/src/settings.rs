//! The persisted preferences that the overlay's decisions read, and their
//! sanitising. (The overlay intensity, a fraction, is held by the application
//! beside these.)

use vstd::prelude::*;

verus! {

/// Default texture catalog name (an entry of the texture catalog).
pub const DEFAULT_TEXTURE: &'static str = "classic-matte";

/// Whether `c` has the Unicode `White_Space` property (the characters that
/// std's `char::is_whitespace` and `str::trim` treat as white space): tab,
/// line feed, vertical tab, form feed, carriage return, space, next line,
/// no-break space, Ogham space mark, the spaces U+2000 to U+200A, line and
/// paragraph separators, narrow no-break space, medium mathematical space
/// and ideographic space.
pub open spec fn unicode_white_space(c: char) -> bool {
    let u = c as u32;
    ||| 0x09 <= u <= 0x0D
    ||| u == 0x20
    ||| u == 0x85
    ||| u == 0xA0
    ||| u == 0x1680
    ||| 0x2000 <= u <= 0x200A
    ||| u == 0x2028
    ||| u == 0x2029
    ||| u == 0x202F
    ||| u == 0x205F
    ||| u == 0x3000
}

/// `t` is `s` with its leading and trailing white space removed.
pub open spec fn is_trim_of(s: Seq<char>, t: Seq<char>) -> bool {
    exists|cut: (int, int)|
        #![trigger s.subrange(cut.0, cut.1)]
        0 <= cut.0 <= cut.1 <= s.len() && t == s.subrange(cut.0, cut.1)
        && (forall|i: int| 0 <= i < cut.0 ==> unicode_white_space(#[trigger] s[i]))
        && (forall|i: int| cut.1 <= i < s.len() ==> unicode_white_space(#[trigger] s[i]))
        && (cut.0 < cut.1 ==> !unicode_white_space(s[cut.0]) && !unicode_white_space(s[cut.1 - 1]))
}

/// `str::trim`: the slice with leading and trailing white space (Unicode
/// `White_Space`) removed. The contract claims just that: the result is a
/// contiguous part of `s`, everything cut off on either side is white space,
/// and a non-empty result starts and ends with a character that is not.
#[verifier::external_body]
fn trim(s: &str) -> (r: &str)
    ensures
        is_trim_of(s@, r@),
{
    s.trim()
}

/// Every character of `s` is white space (the empty string included).
pub open spec fn is_blank(s: Seq<char>) -> bool {
    forall|i: int| 0 <= i < s.len() ==> unicode_white_space(#[trigger] s[i])
}

/// A trimmed string is empty exactly when the original is all white space.
proof fn lemma_trim_empty_iff_blank(s: Seq<char>, t: Seq<char>)
    requires
        is_trim_of(s, t),
    ensures
        t.len() == 0 <==> is_blank(s),
{
    let cut = choose|cut: (int, int)|
        #![trigger s.subrange(cut.0, cut.1)]
        0 <= cut.0 <= cut.1 <= s.len() && t == s.subrange(cut.0, cut.1)
        && (forall|i: int| 0 <= i < cut.0 ==> unicode_white_space(#[trigger] s[i]))
        && (forall|i: int| cut.1 <= i < s.len() ==> unicode_white_space(#[trigger] s[i]))
        && (cut.0 < cut.1 ==> !unicode_white_space(s[cut.0]) && !unicode_white_space(s[cut.1 - 1]));
    if t.len() == 0 {
        assert(cut.0 == cut.1);
        assert forall|i: int| 0 <= i < s.len() implies unicode_white_space(#[trigger] s[i]) by {
            if i < cut.0 {
            } else {
            }
        }
    } else {
        assert(cut.0 < cut.1);
        assert(!unicode_white_space(s[cut.0]));
    }
}

/// The texture after sanitising: a blank name becomes the default texture.
pub open spec fn normalized_texture(texture: Seq<char>) -> Seq<char> {
    if is_blank(texture) {
        DEFAULT_TEXTURE@
    } else {
        texture
    }
}

/// Sanitising twice changes nothing more than sanitising once, a name that
/// is not blank is kept as it is, and the sanitised name is never blank.
pub proof fn lemma_normalize_is_idempotent(texture: Seq<char>)
    ensures
        normalized_texture(normalized_texture(texture)) == normalized_texture(texture),
        !is_blank(texture) ==> normalized_texture(texture) == texture,
        !is_blank(normalized_texture(texture)),
        is_blank(texture) ==> normalized_texture(texture) == "classic-matte"@,
        texture.len() == 0 ==> normalized_texture(texture) == "classic-matte"@,
{
    reveal_strlit("classic-matte");
    assert(!unicode_white_space(DEFAULT_TEXTURE@[0]));
}

/// With nothing on disk the overlay is enabled, uses the classic matte
/// texture, excludes no app, does not pause on battery and is no login item.
pub proof fn lemma_default_preferences()
    ensures
        default_preferences().enabled,
        default_preferences().texture == "classic-matte"@,
        default_preferences().exclusion_list.len() == 0,
        !default_preferences().pause_on_battery,
        !default_preferences().login_item,
{
}

/// The default texture is an entry of the texture catalog.
pub proof fn lemma_default_texture_in_catalog()
    ensures
        crate::grain::catalog_spec(DEFAULT_TEXTURE@) is Some,
        crate::catalog::catalog_index(DEFAULT_TEXTURE@) == Some(0int),
{
}

/// Whether the overlay is enabled when nothing is on disk.
pub fn default_enabled() -> (r: bool)
    ensures
        r,
{
    true
}

/// The texture selected when nothing is on disk.
pub fn default_texture() -> (r: String)
    ensures
        r@ == DEFAULT_TEXTURE@,
{
    DEFAULT_TEXTURE.to_owned()
}

/// Replace a blank texture name (empty or white space only) by the default.
pub fn normalize_texture(texture: &mut String)
    ensures
        final(texture)@ == normalized_texture(old(texture)@),
{
    let trimmed = trim(texture.as_str());
    proof {
        lemma_trim_empty_iff_blank(texture@, trimmed@);
    }
    let blank = trimmed.is_empty();
    if blank {
        *texture = default_texture();
    }
}

/// The persisted preferences that the overlay's decisions read.
pub struct Preferences {
    /// Master on/off for the overlay.
    pub enabled: bool,
    /// Selected texture catalog name.
    pub texture: String,
    /// Bundle identifiers for which the overlay is hidden when frontmost.
    pub exclusion_list: Vec<String>,
    /// Pause the overlay while running on battery.
    pub pause_on_battery: bool,
    /// Whether the login item (launch at login) is registered.
    pub login_item: bool,
}

/// Preferences as plain values.
pub struct PreferencesView {
    pub enabled: bool,
    pub texture: Seq<char>,
    pub exclusion_list: Seq<Seq<char>>,
    pub pause_on_battery: bool,
    pub login_item: bool,
}

impl View for Preferences {
    type V = PreferencesView;

    open spec fn view(&self) -> PreferencesView {
        PreferencesView {
            enabled: self.enabled,
            texture: self.texture@,
            exclusion_list: self.exclusion_list@.map_values(|s: String| s@),
            pause_on_battery: self.pause_on_battery,
            login_item: self.login_item,
        }
    }
}

/// The preferences when nothing is on disk: enabled, the default texture,
/// no exclusions, no pause on battery, no login item.
pub open spec fn default_preferences() -> PreferencesView {
    PreferencesView {
        enabled: true,
        texture: DEFAULT_TEXTURE@,
        exclusion_list: Seq::empty(),
        pause_on_battery: false,
        login_item: false,
    }
}

impl Default for Preferences {
    fn default() -> (r: Preferences)
        ensures
            r@ == default_preferences(),
    {
        let r = Preferences {
            enabled: default_enabled(),
            texture: default_texture(),
            exclusion_list: Vec::new(),
            pause_on_battery: false,
            login_item: false,
        };
        assert(r@.exclusion_list =~= Seq::<Seq<char>>::empty());
        r
    }
}

impl Preferences {
    /// Sanitise what a hand-edited file could break: a blank texture name
    /// becomes the default texture; everything else is kept.
    pub fn normalize(&mut self)
        ensures
            final(self)@ == (PreferencesView { texture: normalized_texture(old(self)@.texture), ..old(self)@ }),
    {
        normalize_texture(&mut self.texture);
    }
}

} // verus!
