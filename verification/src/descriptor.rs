//! Key origins, derivation paths and output descriptors, as text.

use crate::keys::ScriptType;
use crate::text::{decimal, hex, push_decimal, push_hex};
use vstd::prelude::*;

verus! {

/// The key origin `[<fingerprint>/<purpose>h/<coin_type>h/0h]`, the
/// fingerprint in eight lower-case hexadecimal digits.
pub open spec fn key_origin_text(fingerprint: Seq<u8>, purpose: u32, coin_type: u32) -> Seq<char> {
    "["@ + hex(fingerprint) + "/"@ + decimal(purpose as nat) + "h/"@ + decimal(coin_type as nat)
        + "h/0h]"@
}

/// The derivation path `m/<purpose>'/<coin_type>'/0'` of account 0.
pub open spec fn derivation_path_text(purpose: u32, coin_type: u32) -> Seq<char> {
    "m/"@ + decimal(purpose as nat) + "'/"@ + decimal(coin_type as nat) + "'/0'"@
}

/// What every descriptor holds between the brackets of its script template:
/// `<key_origin><xpub>/<chain>/*`.
pub open spec fn descriptor_key(key_origin: Seq<char>, xpub: Seq<char>, chain: u32) -> Seq<char> {
    key_origin + xpub + "/"@ + decimal(chain as nat) + "/*"@
}

/// The output descriptor of a purpose: `wpkh(..)` for 84, `sh(wpkh(..))` for
/// 49 and `pkh(..)` for 44, around `<key_origin><xpub>/<chain>/*`.
pub open spec fn descriptor_text(
    purpose: u32,
    key_origin: Seq<char>,
    xpub: Seq<char>,
    chain: u32,
) -> Seq<char> {
    if purpose == 84 {
        "wpkh("@ + descriptor_key(key_origin, xpub, chain) + ")"@
    } else if purpose == 49 {
        "sh(wpkh("@ + descriptor_key(key_origin, xpub, chain) + "))"@
    } else {
        "pkh("@ + descriptor_key(key_origin, xpub, chain) + ")"@
    }
}

/// Renders the key origin of an account: `[<fingerprint>/<purpose>h/<coin_type>h/0h]`.
pub fn format_key_origin(fingerprint: [u8; 4], purpose: u32, coin_type: u32) -> (text: String)
    ensures
        text@ == key_origin_text(fingerprint@, purpose, coin_type),
{
    let mut text = String::from_str("[");
    push_hex(&mut text, fingerprint.as_slice());
    text.append("/");
    push_decimal(&mut text, purpose);
    text.append("h/");
    push_decimal(&mut text, coin_type);
    text.append("h/0h]");
    text
}

/// Renders the derivation path of account 0: `m/<purpose>'/<coin_type>'/0'`.
pub fn derivation_path(purpose: u32, coin_type: u32) -> (text: String)
    ensures
        text@ == derivation_path_text(purpose, coin_type),
{
    let mut text = String::from_str("m/");
    push_decimal(&mut text, purpose);
    text.append("'/");
    push_decimal(&mut text, coin_type);
    text.append("'/0'");
    text
}

/// Appends `<key_origin><xpub>/<chain>/*` to `text`.
fn push_descriptor_key(text: &mut String, key_origin: &str, xpub: &str, chain: u32)
    ensures
        final(text)@ == old(text)@ + descriptor_key(key_origin@, xpub@, chain),
{
    text.append(key_origin);
    text.append(xpub);
    text.append("/");
    push_decimal(text, chain);
    text.append("/*");
    assert(text@ =~= old(text)@ + descriptor_key(key_origin@, xpub@, chain));
}

/// Renders the output descriptor of an account for one chain, 0 for receiving
/// and 1 for change, in the template of its purpose.
pub fn output_descriptor(purpose: u32, key_origin: &str, xpub: &str, chain: u32) -> (text: String)
    requires
        purpose == 44 || purpose == 49 || purpose == 84,
    ensures
        text@ == descriptor_text(purpose, key_origin@, xpub@, chain),
{
    if purpose == 84 {
        let mut text = String::from_str("wpkh(");
        push_descriptor_key(&mut text, key_origin, xpub, chain);
        text.append(")");
        text
    } else if purpose == 49 {
        let mut text = String::from_str("sh(wpkh(");
        push_descriptor_key(&mut text, key_origin, xpub, chain);
        text.append("))");
        text
    } else {
        let mut text = String::from_str("pkh(");
        push_descriptor_key(&mut text, key_origin, xpub, chain);
        text.append(")");
        text
    }
}

/// Renders the output descriptor of a script type for one chain.
pub fn script_descriptor(script: ScriptType, key_origin: &str, xpub: &str, chain: u32) -> (text:
    String)
    ensures
        text@ == descriptor_text(script.purpose_of(), key_origin@, xpub@, chain),
{
    output_descriptor(script.purpose(), key_origin, xpub, chain)
}

/// A native SegWit descriptor is `wpkh(<key_origin><xpub>/<chain>/*)`, a
/// nested one the same inside `sh(..)`, and a legacy one `pkh(..)` around the
/// same key.
pub proof fn lemma_descriptor_templates(key_origin: Seq<char>, xpub: Seq<char>, chain: u32)
    ensures
        descriptor_text(84, key_origin, xpub, chain) == "wpkh("@ + key_origin + xpub + "/"@
            + decimal(chain as nat) + "/*)"@,
        descriptor_text(49, key_origin, xpub, chain) == "sh(wpkh("@ + key_origin + xpub + "/"@
            + decimal(chain as nat) + "/*))"@,
        descriptor_text(44, key_origin, xpub, chain) == "pkh("@ + key_origin + xpub + "/"@
            + decimal(chain as nat) + "/*)"@,
{
    reveal_strlit("/*");
    reveal_strlit(")");
    reveal_strlit("))");
    reveal_strlit("/*)");
    reveal_strlit("/*))");
    let key = descriptor_key(key_origin, xpub, chain);
    let stem = key_origin + xpub + "/"@ + decimal(chain as nat);
    assert(key + ")"@ =~= stem + "/*)"@);
    assert(key + "))"@ =~= stem + "/*))"@);
    assert("wpkh("@ + key + ")"@ =~= "wpkh("@ + key_origin + xpub + "/"@ + decimal(chain as nat)
        + "/*)"@);
    assert("sh(wpkh("@ + key + "))"@ =~= "sh(wpkh("@ + key_origin + xpub + "/"@ + decimal(
        chain as nat,
    ) + "/*))"@);
    assert("pkh("@ + key + ")"@ =~= "pkh("@ + key_origin + xpub + "/"@ + decimal(chain as nat)
        + "/*)"@);
}

} // verus!
