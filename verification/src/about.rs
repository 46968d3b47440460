//! The address of the about window's page, which carries the build
//! information of shell and worker in its fragment.

use vstd::prelude::*;
use vstd::string::*;

verus! {

/// Label of the about window.
pub const ABOUT_WINDOW_LABEL: &'static str = "about";

/// Title of the about window.
pub const ABOUT_WINDOW_TITLE: &'static str = "About SyftBox";

/// Version, revision and build stamp of the shell and of the worker it
/// ships with.
#[derive(Debug, PartialEq, Eq)]
pub struct BuildInfo {
    pub desktop_version: String,
    pub desktop_hash: String,
    pub desktop_build: String,
    pub daemon_version: String,
    pub daemon_hash: String,
    pub daemon_build: String,
}

/// Whether a byte may stand in a URL as it is: letters, digits, and the
/// four marks `-`, `.`, `_`, `~`.
pub open spec fn is_unreserved(byte: u8) -> bool {
    ||| 0x30 <= byte <= 0x39
    ||| 0x41 <= byte <= 0x5a
    ||| 0x61 <= byte <= 0x7a
    ||| byte == 0x2d
    ||| byte == 0x2e
    ||| byte == 0x5f
    ||| byte == 0x7e
}

/// The uppercase hexadecimal digit for `nibble`, which is below sixteen.
pub open spec fn upper_hex_digit(nibble: nat) -> char {
    if nibble < 10 {
        (0x30 + nibble) as u8 as char
    } else {
        (0x41 + nibble - 10) as u8 as char
    }
}

/// One byte, percent-encoded: itself if unreserved, else `%` and two
/// uppercase hexadecimal digits.
pub open spec fn percent_encoded_byte(byte: u8) -> Seq<char> {
    if is_unreserved(byte) {
        seq![byte as char]
    } else {
        seq!['%', upper_hex_digit((byte / 16) as nat), upper_hex_digit((byte % 16) as nat)]
    }
}

/// A byte string, percent-encoded byte by byte.
pub open spec fn percent_encoded(bytes: Seq<u8>) -> Seq<char>
    decreases bytes.len(),
{
    if bytes.len() == 0 {
        Seq::empty()
    } else {
        percent_encoded(bytes.drop_last()) + percent_encoded_byte(bytes.last())
    }
}

/// A text, percent-encoded over its UTF-8 bytes.
pub open spec fn url_encoded(text: Seq<char>) -> Seq<char> {
    percent_encoded(vstd::utf8::encode_utf8(text))
}

/// Whether `c` may appear in percent-encoded text.
pub open spec fn is_url_safe(c: char) -> bool {
    ||| '0' <= c <= '9'
    ||| 'A' <= c <= 'Z'
    ||| 'a' <= c <= 'z'
    ||| c == '-'
    ||| c == '.'
    ||| c == '_'
    ||| c == '~'
    ||| c == '%'
}

/// Percent-encodes `text` by `urlencoding::encode`, which works on the
/// UTF-8 bytes of the text, keeps each unreserved byte and writes every
/// other as `%` and two uppercase hexadecimal digits.
#[verifier::external_body]
fn url_encode(text: &str) -> (encoded: String)
    ensures
        encoded@ == url_encoded(text@),
{
    urlencoding::encode(text).into_owned()
}

/// Percent-encoded text holds no character that could end a field of a URL
/// fragment or begin another.
pub proof fn lemma_percent_encoded_is_safe(bytes: Seq<u8>)
    ensures
        forall|i: int|
            0 <= i < percent_encoded(bytes).len() ==> is_url_safe(
                #[trigger] percent_encoded(bytes)[i],
            ),
    decreases bytes.len(),
{
    if bytes.len() > 0 {
        lemma_percent_encoded_is_safe(bytes.drop_last());
        let head = percent_encoded(bytes.drop_last());
        let tail = percent_encoded_byte(bytes.last());
        assert forall|k: int| 0 <= k < tail.len() implies is_url_safe(#[trigger] tail[k]) by {
            lemma_encoded_byte_is_safe(bytes.last());
        }
        assert forall|i: int| 0 <= i < percent_encoded(bytes).len() implies is_url_safe(
            #[trigger] percent_encoded(bytes)[i],
        ) by {
            if i < head.len() {
                assert(percent_encoded(bytes)[i] == head[i]);
            } else {
                assert(percent_encoded(bytes)[i] == tail[i - head.len()]);
            }
        }
    }
}

/// The encoding of one byte holds only characters safe in a URL.
pub proof fn lemma_encoded_byte_is_safe(byte: u8)
    ensures
        forall|k: int|
            0 <= k < percent_encoded_byte(byte).len() ==> is_url_safe(
                #[trigger] percent_encoded_byte(byte)[k],
            ),
{
    let high = (byte / 16) as nat;
    let low = (byte % 16) as nat;
    assert(is_url_safe(upper_hex_digit(high)));
    assert(is_url_safe(upper_hex_digit(low)));
    if is_unreserved(byte) {
        assert(is_url_safe(byte as char));
    }
}

/// Whether every character of `text` may appear in percent-encoded text.
pub open spec fn all_url_safe(text: Seq<char>) -> bool {
    forall|i: int| 0 <= i < text.len() ==> is_url_safe(#[trigger] text[i])
}

/// Encodes a build stamp for a field of the about page's address. Whatever
/// the stamp holds, the field holds no `&`, `=` or `#` that could end it or
/// begin another.
pub fn encode_build_stamp(stamp: &str) -> (field: String)
    ensures
        field@ == url_encoded(stamp@),
        all_url_safe(field@),
{
    proof {
        lemma_percent_encoded_is_safe(vstd::utf8::encode_utf8(stamp@));
    }
    url_encode(stamp)
}

/// The address of the about page for `info`: versions and revisions as they
/// are, build stamps percent-encoded.
pub open spec fn about_page(
    desktop_version: Seq<char>,
    desktop_hash: Seq<char>,
    desktop_build: Seq<char>,
    daemon_version: Seq<char>,
    daemon_hash: Seq<char>,
    daemon_build: Seq<char>,
) -> Seq<char> {
    "about/#desktop_version="@ + desktop_version + "&desktop_hash="@ + desktop_hash
        + "&desktop_build="@ + desktop_build + "&daemon_version="@ + daemon_version
        + "&daemon_hash="@ + daemon_hash + "&daemon_build="@ + daemon_build
}

/// Builds the address of the about window's page.
pub fn about_url(info: &BuildInfo) -> (url: String)
    ensures
        url@ == about_page(
            info.desktop_version@,
            info.desktop_hash@,
            url_encoded(info.desktop_build@),
            info.daemon_version@,
            info.daemon_hash@,
            url_encoded(info.daemon_build@),
        ),
{
    let desktop_build = encode_build_stamp(info.desktop_build.as_str());
    let daemon_build = encode_build_stamp(info.daemon_build.as_str());
    let mut url = "about/#desktop_version=".to_owned();
    url.append(info.desktop_version.as_str());
    url.append("&desktop_hash=");
    url.append(info.desktop_hash.as_str());
    url.append("&desktop_build=");
    url.append(desktop_build.as_str());
    url.append("&daemon_version=");
    url.append(info.daemon_version.as_str());
    url.append("&daemon_hash=");
    url.append(info.daemon_hash.as_str());
    url.append("&daemon_build=");
    url.append(daemon_build.as_str());
    url
}

} // verus!
