//! The launcher's news and banner feeds: their addresses, their records,
//! and the order fields that the feed writes either as text or as numbers.

use vstd::prelude::*;
use crate::text::{decimal, parse_i32, parsed_i32, push_decimal};

verus! {

broadcast use vstd::string::group_string_axioms;

/// One news item.
pub struct News {
    pub date: String,
    pub title: String,
    pub url: String,
    pub id: String,
    pub tag: Option<String>,
}

/// The headline feed: news, topics and pinned items.
pub struct Headlines {
    pub news: Vec<News>,
    pub topics: Vec<News>,
    pub pinned: Vec<News>,
}

/// One banner of the banner feed.
pub struct Banner {
    pub lsb_banner: String,
    pub link: String,
    pub order_priority: Option<i32>,
    pub fix_order: Option<i32>,
}

/// An order field as the feed writes it.
pub enum StringOrNumber {
    Text(String),
    Number(i32),
}

/// The value of an order field: a number as it is; text read as a number,
/// with empty text and `0` read as zero; nothing where the field is absent.
/// `None` stands for text that is no number.
pub open spec fn order_value_of(v: Option<StringOrNumber>) -> Option<Option<i32>> {
    match v {
        None => Some(None),
        Some(StringOrNumber::Number(n)) => Some(Some(n)),
        Some(StringOrNumber::Text(s)) => if s@.len() == 0 || s@ == "0"@ {
            Some(Some(0))
        } else {
            match parsed_i32(s@) {
                Some(n) => Some(Some(n)),
                None => None,
            }
        },
    }
}

/// Reads an order field; the error carries text that is no number.
pub fn normalize_order(v: Option<StringOrNumber>) -> (r: Result<Option<i32>, String>)
    ensures
        r is Ok <==> order_value_of(v) is Some,
        r matches Ok(n) ==> order_value_of(v) == Some(n),
        r matches Err(t) ==> v matches Some(StringOrNumber::Text(s)) && t@ == s@,
{
    match v {
        None => Ok(None),
        Some(StringOrNumber::Number(n)) => Ok(Some(n)),
        Some(StringOrNumber::Text(s)) => {
            let zero = String::from_str("0");
            if s.as_str().unicode_len() == 0 || s == zero {
                Ok(Some(0))
            } else {
                match parse_i32(s.as_str()) {
                    Some(n) => Ok(Some(n)),
                    None => Err(s),
                }
            }
        },
    }
}

/// The feed's language code for the client language.
pub open spec fn feed_language_of(language: u32) -> Seq<char> {
    if language == 2 {
        "de-de"@
    } else if language == 3 {
        "fr-fr"@
    } else {
        "en-us"@
    }
}

/// The feed's language code for the client language: German and French
/// have their own, everything else reads the English feed.
pub fn feed_language(language: u32) -> (r: String)
    ensures
        r@ == feed_language_of(language),
{
    if language == 2 {
        String::from_str("de-de")
    } else if language == 3 {
        String::from_str("fr-fr")
    } else {
        String::from_str("en-us")
    }
}

/// The headline feed's address; `timestamp_ms` keeps caches from answering.
pub fn headline_url(language: u32, timestamp_ms: u128) -> (r: String)
    ensures
        r@ == "https://frontier.ffxiv.com/news/headline.json?lang="@ + feed_language_of(language)
            + "&media=pcapp&_="@ + decimal(timestamp_ms as nat),
{
    let mut r = String::from_str("https://frontier.ffxiv.com/news/headline.json?lang=");
    let code = feed_language(language);
    r.append(code.as_str());
    r.append("&media=pcapp&_=");
    push_decimal(&mut r, timestamp_ms);
    r
}

/// The banner feed's address; `timestamp_ms` keeps caches from answering.
pub fn banner_url(language: u32, timestamp_ms: u128) -> (r: String)
    ensures
        r@ == "https://frontier.ffxiv.com/v2/topics/"@ + feed_language_of(language)
            + "/banner.json?lang="@ + feed_language_of(language) + "&media=pcapp&_="@ + decimal(
            timestamp_ms as nat,
        ),
{
    let mut r = String::from_str("https://frontier.ffxiv.com/v2/topics/");
    let code = feed_language(language);
    r.append(code.as_str());
    r.append("/banner.json?lang=");
    r.append(code.as_str());
    r.append("&media=pcapp&_=");
    push_decimal(&mut r, timestamp_ms);
    r
}

} // verus!
