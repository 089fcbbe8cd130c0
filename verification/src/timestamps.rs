//! Names that carry the time at which they were made.

use time::error::Format;
use time::format_description::well_known::Rfc3339;
use time::OffsetDateTime;
use vstd::prelude::*;
use vstd::string::*;

verus! {

#[verifier::external_type_specification]
#[verifier::external_body]
pub struct ExOffsetDateTime(OffsetDateTime);

#[verifier::external_type_specification]
#[verifier::external_body]
pub struct ExFormat(Format);

/// `OffsetDateTime::now_utc` reads the clock, so nothing is claimed of what it
/// returns.
pub assume_specification[ OffsetDateTime::now_utc ]() -> (moment: OffsetDateTime)
;

/// The RFC 3339 text of a moment, where it has one.
pub uninterp spec fn rfc3339_text(moment: OffsetDateTime) -> Option<Seq<char>>;

/// `OffsetDateTime::format` with the `Rfc3339` description writes a moment out
/// as RFC 3339 text, or fails for a moment that the format cannot express.
#[verifier::external_body]
fn format_rfc3339(moment: OffsetDateTime) -> (text: Result<String, Format>)
    ensures
        text matches Ok(written) ==> rfc3339_text(moment) == Some(written@),
        text is Err ==> rfc3339_text(moment) is None,
{
    moment.format(&Rfc3339)
}

/// `String::push` appends one character.
pub assume_specification[ String::push ](text: &mut String, ch: char)
    ensures
        final(text)@ == old(text)@.push(ch),
;

/// The longest stamp, in characters: eight of the date, a dash, six of the time.
pub const STAMP_LEN: usize = 15;

/// A text without its dashes and colons, and with a dash for each `T`.
pub open spec fn compacted(text: Seq<char>) -> Seq<char>
    decreases text.len(),
{
    if text.len() == 0 {
        Seq::empty()
    } else {
        let before = compacted(text.drop_last());
        let last = text.last();
        if last == '-' || last == ':' {
            before
        } else if last == 'T' {
            before.push('-')
        } else {
            before.push(last)
        }
    }
}

/// The first `STAMP_LEN` characters of a text, or all of it where it is shorter.
pub open spec fn truncated(text: Seq<char>) -> Seq<char> {
    if text.len() <= STAMP_LEN {
        text
    } else {
        text.subrange(0, STAMP_LEN as int)
    }
}

/// The stamp that a time written as `text` gives: compacted, then truncated.
pub open spec fn stamp_of(text: Seq<char>) -> Seq<char> {
    truncated(compacted(text))
}

/// The name `name` with the stamp of the time written as `now`.
pub open spec fn named_at(name: Seq<char>, now: Seq<char>) -> Seq<char> {
    name + seq!['-'] + stamp_of(now)
}

/// Turns a time written as RFC 3339 text into a stamp fit for identifiers such
/// as file names: `2024-05-06T07:08:09Z` becomes `20240506-070809`.
pub fn stamp(text: &str) -> (stamped: String)
    ensures
        stamped@ == stamp_of(text@),
{
    let mut stamped = String::new();
    let mut kept: usize = 0;
    let len: usize = text.unicode_len();
    let mut i: usize = 0;
    assert(text@.subrange(0, 0) =~= Seq::<char>::empty());
    while i < len
        invariant
            len == text@.len(),
            i <= len,
            kept == stamped@.len(),
            kept <= STAMP_LEN,
            stamped@ == stamp_of(text@.subrange(0, i as int)),
        decreases len - i,
    {
        let ch = text.get_char(i);
        proof {
            let prefix = text@.subrange(0, i as int);
            let longer = text@.subrange(0, i + 1);
            assert(longer.drop_last() =~= prefix);
            assert(longer.last() == ch);
        }
        if ch != '-' && ch != ':' && kept < STAMP_LEN {
            let out = if ch == 'T' {
                '-'
            } else {
                ch
            };
            proof {
                let before = compacted(text@.subrange(0, i as int));
                assert(truncated(before.push(out)) =~= truncated(before).push(out));
            }
            stamped.push(out);
            kept = kept + 1;
        } else {
            proof {
                let before = compacted(text@.subrange(0, i as int));
                if ch != '-' && ch != ':' {
                    let out = if ch == 'T' {
                        '-'
                    } else {
                        ch
                    };
                    assert(truncated(before.push(out)) =~= truncated(before));
                }
            }
        }
        i = i + 1;
    }
    assert(text@.subrange(0, len as int) =~= text@);
    stamped
}

/// `name`, a dash, and `stamp`.
fn suffixed(name: &str, stamp: &str) -> (named: String)
    ensures
        named@ == name@ + seq!['-'] + stamp@,
{
    let mut named = String::from_str(name);
    named.push('-');
    named.append(stamp);
    named
}

/// Suffixes `name` with a dash and the stamp of the time written as `now`.
pub fn named_with(name: &str, now: &str) -> (named: String)
    ensures
        named@ == named_at(name@, now@),
{
    let stamped = stamp(now);
    suffixed(name, stamped.as_str())
}

/// A text representation of the current time, useful in identifiers such as
/// file names; or the failure of writing that time out as RFC 3339 text.
fn now() -> (stamped: Result<String, Format>)
    ensures
        stamped matches Ok(text) ==> exists|moment: OffsetDateTime|
            (#[trigger] rfc3339_text(moment)) is Some && text@ == stamp_of(
                rfc3339_text(moment)->Some_0,
            ),
        stamped is Err ==> exists|moment: OffsetDateTime|
            (#[trigger] rfc3339_text(moment)) is None,
{
    let moment = OffsetDateTime::now_utc();
    match format_rfc3339(moment) {
        Ok(written) => {
            let stamped = stamp(written.as_str());
            assert(rfc3339_text(moment) is Some && stamped@ == stamp_of(
                rfc3339_text(moment)->Some_0,
            ));
            Ok(stamped)
        },
        Err(error) => {
            assert(rfc3339_text(moment) is None);
            Err(error)
        },
    }
}

/// Suffixes an identifier with a text representation of the current time. The
/// one failure is that of writing the current time out as RFC 3339 text.
pub fn named(name: &str) -> (named: Result<String, Format>)
    ensures
        named matches Ok(text) ==> exists|moment: OffsetDateTime|
            (#[trigger] rfc3339_text(moment)) is Some && text@ == named_at(
                name@,
                rfc3339_text(moment)->Some_0,
            ),
        named is Err ==> exists|moment: OffsetDateTime| (#[trigger] rfc3339_text(moment)) is None,
{
    match now() {
        Ok(stamped) => Ok(suffixed(name, stamped.as_str())),
        Err(error) => Err(error),
    }
}

} // verus!
