//! The version catalog: for each release channel the versions on offer,
//! each with its download locators.

use crate::protocol::{Channel, Status};
use crate::text::{decimal_int, push_decimal_i32};
use vstd::prelude::*;
use vstd::string::StringExecFns;

verus! {

/// One release that can be offered.
#[derive(Clone, Debug, PartialEq, Eq)]
pub struct Version {
    pub major: i32,
    pub minor: i32,
    pub build: i32,
    pub patch: i32,
    /// Number of successful downloads of this version.
    pub count: i32,
    /// Where the release can be downloaded from.
    pub urls: Vec<String>,
}

/// The catalog, one list of versions for each channel.
#[derive(Clone, Debug, PartialEq, Eq)]
pub struct Versions {
    pub dev: Vec<Version>,
    pub stable: Vec<Version>,
    pub beta: Vec<Version>,
    pub canary: Vec<Version>,
    pub extended: Vec<Version>,
}

/// The characters of each string of a list.
pub open spec fn texts(items: Seq<String>) -> Seq<Seq<char>> {
    items.map_values(|s: String| s@)
}

/// The text that `{:?}` writes for a list of strings with the given
/// characters: the list in square brackets, each string quoted and escaped.
pub uninterp spec fn debug_list_text(items: Seq<Seq<char>>) -> Seq<char>;

/// Formats a list of strings with `{:?}`, that is with `Debug` of
/// `Vec<String>`. The contract only names the text, as a function of the
/// strings' characters.
#[verifier::external_body]
fn debug_list(items: &Vec<String>) -> (text: String)
    ensures
        text@ == debug_list_text(texts(items@)),
{
    format!("{:?}", items)
}

/// The text of a version: major, minor and build number with dots between
/// them, a comma, and the list of download locators.
pub open spec fn version_text(version: Version) -> Seq<char> {
    decimal_int(version.major as int) + "."@ + decimal_int(version.minor as int) + "."@
        + decimal_int(version.build as int) + ", "@ + debug_list_text(texts(version.urls@))
}

/// The first download locator of a version; the empty text where it has
/// none.
pub open spec fn first_url(version: Version) -> Seq<char> {
    if version.urls@.len() > 0 {
        version.urls@[0]@
    } else {
        Seq::<char>::empty()
    }
}

/// Whether `version` is the empty version, which stands for "nothing on
/// offer": all numbers zero and no download locator.
pub open spec fn is_empty_version(version: Version) -> bool {
    &&& version.major == 0
    &&& version.minor == 0
    &&& version.build == 0
    &&& version.patch == 0
    &&& version.count == 0
    &&& version.urls@.len() == 0
}

/// The text of the empty version.
pub open spec fn empty_version_text() -> Seq<char> {
    decimal_int(0) + "."@ + decimal_int(0) + "."@ + decimal_int(0) + ", "@ + debug_list_text(
        Seq::<Seq<char>>::empty(),
    )
}

/// An empty version has the text of the empty version and no download
/// locator.
pub proof fn lemma_empty_version(version: Version)
    requires
        is_empty_version(version),
    ensures
        version_text(version) == empty_version_text(),
        first_url(version) == Seq::<char>::empty(),
{
    assert(texts(version.urls@) =~= Seq::<Seq<char>>::empty());
}

impl Version {
    /// The empty version.
    pub fn empty() -> (version: Version)
        ensures
            is_empty_version(version),
    {
        Version { major: 0, minor: 0, build: 0, patch: 0, count: 0, urls: Vec::new() }
    }

    /// The version as text.
    pub fn to_string(&self) -> (text: String)
        ensures
            text@ == version_text(*self),
    {
        let mut text = String::new();
        push_decimal_i32(&mut text, self.major);
        text.append(".");
        push_decimal_i32(&mut text, self.minor);
        text.append(".");
        push_decimal_i32(&mut text, self.build);
        text.append(", ");
        let urls = debug_list(&self.urls);
        text.append(urls.as_str());
        text
    }

    /// The first download locator, or the empty string where there is none.
    pub fn download_link(&self) -> (link: String)
        ensures
            link@ == first_url(*self),
    {
        if self.urls.len() > 0 {
            self.urls[0].clone()
        } else {
            String::new()
        }
    }
}

/// The version that the catalog offers on a channel. Only the `Dev`
/// channel is served: its first version, if it has one. No other channel
/// offers anything.
pub open spec fn offered(versions: Versions, channel: Channel) -> Option<Version> {
    if channel == Channel::Dev && versions.dev@.len() > 0 {
        Some(versions.dev@[0])
    } else {
        None
    }
}

/// The status of an offer: `ok` where the catalog offers a version on the
/// channel, `noupdate` where it does not.
pub open spec fn offer_outcome(versions: Versions, channel: Channel) -> Status {
    if offered(versions, channel) is Some {
        Status::ok
    } else {
        Status::noupdate
    }
}

/// The text of the version on offer; that of the empty version where
/// nothing is on offer.
pub open spec fn offer_text(versions: Versions, channel: Channel) -> Seq<char> {
    match offered(versions, channel) {
        Some(version) => version_text(version),
        None => empty_version_text(),
    }
}

/// The download locator of the version on offer; empty where nothing is on
/// offer.
pub open spec fn offer_link(versions: Versions, channel: Channel) -> Seq<char> {
    match offered(versions, channel) {
        Some(version) => first_url(version),
        None => Seq::<char>::empty(),
    }
}

/// The text of a version with its fields named: the type's name and, in
/// braces, each field with its value.
pub open spec fn version_debug_text(version: Version) -> Seq<char> {
    "Version { major: "@ + decimal_int(version.major as int) + ", minor: "@ + decimal_int(
        version.minor as int,
    ) + ", build: "@ + decimal_int(version.build as int) + ", patch: "@ + decimal_int(
        version.patch as int,
    ) + ", count: "@ + decimal_int(version.count as int) + ", urls: "@ + debug_list_text(
        texts(version.urls@),
    ) + " }"@
}

/// The texts of the versions of a list, with a comma and a space between
/// one and the next.
pub open spec fn version_items_text(list: Seq<Version>) -> Seq<char>
    decreases list.len(),
{
    if list.len() == 0 {
        Seq::<char>::empty()
    } else if list.len() == 1 {
        version_debug_text(list[0])
    } else {
        version_items_text(list.drop_last()) + ", "@ + version_debug_text(list.last())
    }
}

/// The text of a list of versions: its items in square brackets.
pub open spec fn version_list_text(list: Seq<Version>) -> Seq<char> {
    "["@ + version_items_text(list) + "]"@
}

/// The text of a catalog: a heading, then one line for each channel with
/// the channel's versions.
pub open spec fn versions_text(versions: Versions) -> Seq<char> {
    "Versions:\n"@ + "  Dev:    "@ + version_list_text(versions.dev@) + "\n"@ + "  Stable: "@
        + version_list_text(versions.stable@) + "\n"@ + "  Beta:   "@ + version_list_text(
        versions.beta@,
    ) + "\n"@ + "  Canary: "@ + version_list_text(versions.canary@) + "\n"@ + "  Extended: "@
        + version_list_text(versions.extended@) + "\n"@
}

/// Appends the text of `version`, with its fields named, to `out`.
fn push_version_debug(out: &mut String, version: &Version)
    ensures
        final(out)@ == old(out)@ + version_debug_text(*version),
{
    out.append("Version { major: ");
    push_decimal_i32(out, version.major);
    out.append(", minor: ");
    push_decimal_i32(out, version.minor);
    out.append(", build: ");
    push_decimal_i32(out, version.build);
    out.append(", patch: ");
    push_decimal_i32(out, version.patch);
    out.append(", count: ");
    push_decimal_i32(out, version.count);
    out.append(", urls: ");
    let urls = debug_list(&version.urls);
    out.append(urls.as_str());
    out.append(" }");
    assert(final(out)@ =~= old(out)@ + version_debug_text(*version));
}

/// Appends the text of a list of versions to `out`.
fn push_version_list(out: &mut String, list: &Vec<Version>)
    ensures
        final(out)@ == old(out)@ + version_list_text(list@),
{
    out.append("[");
    let ghost start = out@;
    let mut i: usize = 0;
    while i < list.len()
        invariant
            i <= list.len(),
            out@ == start + version_items_text(list@.take(i as int)),
        decreases list.len() - i,
    {
        let ghost before = list@.take(i as int);
        let ghost after = list@.take(i + 1);
        assert(after.drop_last() =~= before);
        assert(after.last() == list@[i as int]);
        if i > 0 {
            out.append(", ");
        }
        push_version_debug(out, &list[i]);
        i += 1;
        assert(out@ =~= start + version_items_text(after));
    }
    assert(list@.take(i as int) =~= list@);
    out.append("]");
    assert(final(out)@ =~= old(out)@ + version_list_text(list@));
}

impl Versions {
    /// The version on offer on `channel`, if any.
    pub fn offer(&self, channel: Channel) -> (version: Option<&Version>)
        ensures
            match version {
                Some(v) => offered(*self, channel) == Some(*v),
                None => offered(*self, channel) is None,
            },
    {
        match channel {
            Channel::Dev => {
                if self.dev.len() > 0 {
                    Some(&self.dev[0])
                } else {
                    None
                }
            },
            _ => None,
        }
    }

    /// The catalog as text.
    pub fn to_string(&self) -> (text: String)
        ensures
            text@ == versions_text(*self),
    {
        let mut text = String::from_str("Versions:\n");
        text.append("  Dev:    ");
        push_version_list(&mut text, &self.dev);
        text.append("\n");
        text.append("  Stable: ");
        push_version_list(&mut text, &self.stable);
        text.append("\n");
        text.append("  Beta:   ");
        push_version_list(&mut text, &self.beta);
        text.append("\n");
        text.append("  Canary: ");
        push_version_list(&mut text, &self.canary);
        text.append("\n");
        text.append("  Extended: ");
        push_version_list(&mut text, &self.extended);
        text.append("\n");
        text
    }
}

} // verus!
