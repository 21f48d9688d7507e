//! The receive filter: an optional whitelist and an optional blacklist, both
//! regular expressions over the lowercase hex text of a frame.

use crate::hexcode::{dump, encode, hex_view, lower_hex};
use regex::Regex;
use vstd::prelude::*;

verus! {

/// A compiled regular expression of the `regex` crate, carried as an opaque value.
#[verifier::external_type_specification]
#[verifier::external_body]
pub struct ExRegex(regex::Regex);

/// The reason the `regex` crate gives for refusing a pattern.
#[verifier::external_type_specification]
#[verifier::external_body]
pub struct ExRegexError(regex::Error);

/// The expression that a pattern compiles to under the filter's four flags
/// (case-insensitive, whitespace-ignoring, multi-line, dot matches newline),
/// or `None` where the pattern is refused.
pub uninterp spec fn compiled(pattern: Seq<char>) -> Option<Regex>;

/// Whether a compiled expression finds a match anywhere in `text`.
pub uninterp spec fn regex_matches(re: Regex, text: Seq<char>) -> bool;

/// Compiles a filter pattern.
///
/// Trusted: builds a `regex::RegexBuilder` for the pattern, switches on
/// `case_insensitive`, `ignore_whitespace`, `multi_line` and
/// `dot_matches_new_line`, and calls `build`. The outcome depends on the
/// pattern alone; `compiled` names it.
#[verifier::external_body]
fn compile(pattern: &str) -> (outcome: Result<Regex, regex::Error>)
    ensures
        match outcome {
            Ok(re) => compiled(pattern@) == Some(re),
            Err(_) => compiled(pattern@) is None,
        },
{
    regex::RegexBuilder::new(pattern)
        .case_insensitive(true)
        .ignore_whitespace(true)
        .multi_line(true)
        .dot_matches_new_line(true)
        .build()
}

/// Tests a compiled expression against a text.
///
/// Trusted: calls `Regex::is_match`, which searches the whole text from its
/// start and depends on the expression and the text alone; `regex_matches`
/// names its answer.
#[verifier::external_body]
fn is_match(re: &Regex, text: &str) -> (hit: bool)
    ensures
        hit == regex_matches(*re, text@),
{
    re.is_match(text)
}

/// What the filter says of one frame.
#[derive(Debug, Clone, Copy, PartialEq, Eq, Structural)]
pub enum Verdict {
    /// The frame passes both lists.
    Accept,
    /// A whitelist is set and the frame's hex text does not match it.
    RejectByWhitelist,
    /// The whitelist, if any, is passed, and the hex text matches the blacklist.
    RejectByBlacklist,
}

/// Which of the two patterns was refused when a filter was built.
#[derive(Debug)]
pub enum FilterError {
    /// The whitelist pattern does not compile.
    Whitelist(regex::Error),
    /// The whitelist is fine or absent, and the blacklist pattern does not compile.
    Blacklist(regex::Error),
}

/// The verdict from the answers of the two lists, `None` standing for a list
/// that is not set. The whitelist is asked first.
pub open spec fn verdict_of(whitelist_hit: Option<bool>, blacklist_hit: Option<bool>) -> Verdict {
    if whitelist_hit == Some(false) {
        Verdict::RejectByWhitelist
    } else if blacklist_hit == Some(true) {
        Verdict::RejectByBlacklist
    } else {
        Verdict::Accept
    }
}

/// The answer of one list on a text: `None` where the list is not set.
pub open spec fn list_hit(list: Option<Regex>, text: Seq<char>) -> Option<bool> {
    match list {
        Some(re) => Some(regex_matches(re, text)),
        None => None,
    }
}

/// The verdict of a pair of lists on a frame, taken on its lowercase hex text.
pub open spec fn lists_verdict(
    whitelist: Option<Regex>,
    blacklist: Option<Regex>,
    frame: Seq<u8>,
) -> Verdict {
    verdict_of(list_hit(whitelist, lower_hex(frame)), list_hit(blacklist, lower_hex(frame)))
}

/// The list that an optional pattern stands for.
pub open spec fn list_of(pattern: Option<String>) -> Option<Regex> {
    match pattern {
        Some(p) => compiled(p@),
        None => None,
    }
}

/// Whether an optional pattern can be made a list: absent, or one that compiles.
pub open spec fn usable(pattern: Option<String>) -> bool {
    pattern matches Some(p) ==> compiled(p@) is Some
}

/// Combines the answers of the two lists into a verdict.
pub fn decide(whitelist_hit: Option<bool>, blacklist_hit: Option<bool>) -> (v: Verdict)
    ensures
        v == verdict_of(whitelist_hit, blacklist_hit),
{
    match whitelist_hit {
        Some(false) => Verdict::RejectByWhitelist,
        _ => match blacklist_hit {
            Some(true) => Verdict::RejectByBlacklist,
            _ => Verdict::Accept,
        },
    }
}

/// A receive filter. Both lists are compiled when the filter is made and only
/// read afterwards.
#[derive(Debug)]
pub struct RxFilter {
    rx_filter: Option<Regex>,
    rx_blacklist_filter: Option<Regex>,
}

impl RxFilter {
    /// The compiled whitelist, if one is set.
    pub closed spec fn whitelist(&self) -> Option<Regex> {
        self.rx_filter
    }

    /// The compiled blacklist, if one is set.
    pub closed spec fn blacklist(&self) -> Option<Regex> {
        self.rx_blacklist_filter
    }

    /// The verdict of this filter on a frame.
    pub open spec fn verdict(&self, frame: Seq<u8>) -> Verdict {
        lists_verdict(self.whitelist(), self.blacklist(), frame)
    }

    /// Makes a filter from patterns that are known to compile.
    pub fn create(whitelist: Option<String>, blacklist: Option<String>) -> (filter: Self)
        requires
            usable(whitelist),
            usable(blacklist),
        ensures
            filter.whitelist() == list_of(whitelist),
            filter.blacklist() == list_of(blacklist),
    {
        let rx_filter = match whitelist {
            Some(pattern) => Some(
                match compile(pattern.as_str()) {
                    Ok(re) => re,
                    Err(_) => vstd::pervasive::unreached(),
                },
            ),
            None => None,
        };
        let rx_blacklist_filter = match blacklist {
            Some(pattern) => Some(
                match compile(pattern.as_str()) {
                    Ok(re) => re,
                    Err(_) => vstd::pervasive::unreached(),
                },
            ),
            None => None,
        };
        RxFilter { rx_filter, rx_blacklist_filter }
    }

    /// Makes a filter from patterns of unknown quality. The whitelist is
    /// checked first; the first pattern that does not compile is reported
    /// and no filter is made.
    pub fn try_create(whitelist: Option<String>, blacklist: Option<String>) -> (outcome: Result<
        Self,
        FilterError,
    >)
        ensures
            match outcome {
                Ok(filter) => {
                    &&& usable(whitelist)
                    &&& usable(blacklist)
                    &&& filter.whitelist() == list_of(whitelist)
                    &&& filter.blacklist() == list_of(blacklist)
                },
                Err(FilterError::Whitelist(_)) => !usable(whitelist),
                Err(FilterError::Blacklist(_)) => usable(whitelist) && !usable(blacklist),
            },
    {
        if let Some(pattern) = &whitelist {
            if let Err(reason) = compile(pattern.as_str()) {
                return Err(FilterError::Whitelist(reason));
            }
        }
        if let Some(pattern) = &blacklist {
            if let Err(reason) = compile(pattern.as_str()) {
                return Err(FilterError::Blacklist(reason));
            }
        }
        Ok(RxFilter::create(whitelist, blacklist))
    }

    /// Classifies a frame. With neither list set the frame is accepted
    /// without being rendered.
    pub fn evaluate(&self, frame: &[u8]) -> (v: Verdict)
        ensures
            v == self.verdict(frame@),
    {
        if self.rx_filter.is_none() && self.rx_blacklist_filter.is_none() {
            return decide(None, None);
        }
        let hex_string = encode(frame);
        let whitelist_hit = match &self.rx_filter {
            Some(re) => Some(is_match(re, hex_string.as_str())),
            None => None,
        };
        if let Some(false) = whitelist_hit {
            return decide(whitelist_hit, None);
        }
        let blacklist_hit = match &self.rx_blacklist_filter {
            Some(re) => Some(is_match(re, hex_string.as_str())),
            None => None,
        };
        decide(whitelist_hit, blacklist_hit)
    }

    /// Filters a frame: the hex dump of an accepted frame, `None` for a
    /// rejected one.
    pub fn filter(&self, packet: &[u8]) -> (shown: Option<String>)
        ensures
            shown is Some <==> self.verdict(packet@) == Verdict::Accept,
            shown matches Some(text) ==> text@ == hex_view(packet@),
    {
        match self.evaluate(packet) {
            Verdict::Accept => Some(dump(packet)),
            _ => None,
        }
    }
}

/// With only a whitelist set, a frame is accepted exactly when its hex text
/// matches the whitelist.
pub proof fn lemma_whitelist_only(filter: RxFilter, frame: Seq<u8>)
    requires
        filter.whitelist() is Some,
        filter.blacklist() is None,
    ensures
        filter.verdict(frame) == Verdict::Accept <==> regex_matches(
            filter.whitelist().unwrap(),
            lower_hex(frame),
        ),
{
}

/// With only a blacklist set, a frame is accepted exactly when its hex text
/// does not match the blacklist.
pub proof fn lemma_blacklist_only(filter: RxFilter, frame: Seq<u8>)
    requires
        filter.whitelist() is None,
        filter.blacklist() is Some,
    ensures
        filter.verdict(frame) == Verdict::Accept <==> !regex_matches(
            filter.blacklist().unwrap(),
            lower_hex(frame),
        ),
{
}

/// With both lists set, a frame is accepted exactly when its hex text matches
/// the whitelist and does not match the blacklist; a frame that fails both
/// is charged to the whitelist.
pub proof fn lemma_both_lists(filter: RxFilter, frame: Seq<u8>)
    requires
        filter.whitelist() is Some,
        filter.blacklist() is Some,
    ensures
        filter.verdict(frame) == Verdict::Accept <==> {
            &&& regex_matches(filter.whitelist().unwrap(), lower_hex(frame))
            &&& !regex_matches(filter.blacklist().unwrap(), lower_hex(frame))
        },
        filter.verdict(frame) == Verdict::RejectByWhitelist <==> !regex_matches(
            filter.whitelist().unwrap(),
            lower_hex(frame),
        ),
{
}

/// With no list set every frame is accepted, the empty frame among them.
pub proof fn lemma_no_lists(filter: RxFilter, frame: Seq<u8>)
    requires
        filter.whitelist() is None,
        filter.blacklist() is None,
    ensures
        filter.verdict(frame) == Verdict::Accept,
        filter.verdict(Seq::<u8>::empty()) == Verdict::Accept,
{
}

} // verus!
