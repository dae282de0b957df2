use vstd::prelude::*;
use configparser::ini::Ini;

verus! {

/// Values of an INI text by (section, key).
pub type IniValues = Map<(Seq<char>, Seq<char>), Seq<char>>;

#[verifier::external_type_specification]
#[verifier::external_body]
pub struct ExIni(configparser::ini::Ini);

/// What an `Ini` holds: each (section, key) pair, as stored after case folding,
/// that carries a value, and that value.
pub uninterp spec fn ini_values(ini: Ini) -> IniValues;

/// Whether an `Ini` still has the settings of `Ini::new`: case-insensitive,
/// section `default` for keys before any header, no cascading lookups.
pub uninterp spec fn ini_has_defaults(ini: Ini) -> bool;

/// The (section, key) pairs with values that configparser's parser, with the
/// settings of `Ini::new`, finds in an INI text; `None` where it rejects the text.
pub uninterp spec fn ini_parse(text: Seq<char>) -> Option<IniValues>;

/// A section or key name that configparser's case folding leaves as it is:
/// ASCII without upper-case letters.
pub open spec fn is_folded(s: Seq<char>) -> bool {
    forall|i: int|
        0 <= i < s.len() ==> (#[trigger] s[i] as u32) < 128 && !('A' <= s[i] && s[i] <= 'Z')
}

/// Relies on `Ini::new`: an empty map with the default settings.
#[verifier::external_body]
pub(crate) fn ini_new() -> (r: Ini)
    ensures
        ini_values(r) == IniValues::empty(),
        ini_has_defaults(r),
{
    Ini::new()
}

/// Relies on `Ini::read`: the text is parsed, and on success the parsed map
/// replaces the stored one; on failure the stored map is kept.
#[verifier::external_body]
pub(crate) fn ini_read(ini: &mut Ini, text: String) -> (r: Result<(), String>)
    requires
        ini_has_defaults(*old(ini)),
    ensures
        ini_has_defaults(*final(ini)),
        r is Ok <==> ini_parse(text@) is Some,
        r is Ok ==> ini_values(*final(ini)) == ini_parse(text@)->0,
        r is Err ==> ini_values(*final(ini)) == ini_values(*old(ini)),
{
    match ini.read(text) {
        Ok(_) => Ok(()),
        Err(e) => Err(e),
    }
}

/// Relies on `Ini::get`: with names that case folding leaves unchanged and no
/// cascading, the stored value of that section and key, if it has one.
#[verifier::external_body]
pub(crate) fn ini_get(ini: &Ini, section: &str, key: &str) -> (r: Option<String>)
    requires
        ini_has_defaults(*ini),
        is_folded(section@),
        is_folded(key@),
    ensures
        r is Some <==> ini_values(*ini).contains_key((section@, key@)),
        r is Some ==> r->0@ == ini_values(*ini)[(section@, key@)],
{
    ini.get(section, key)
}

} // verus!
