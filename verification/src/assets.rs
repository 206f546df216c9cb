//! Addresses of Neos assets.

use crate::text::starts_with;
use vstd::prelude::*;
use vstd::std_specs::convert::TryFromSpecImpl;
use vstd::string::*;

verus! {

/// The address under which assets given in the short `neosdb:///` form are
/// found.
pub const URL_PREFIX: &'static str = "https://assets.neos.com/assets/";

/// The scheme of the short form of an asset's address.
pub const NEOSDB_SCHEME: &'static str = "neosdb:///";

/// The position of the last occurrence of a character in a text, or -1
/// where it does not occur.
pub open spec fn last_index_of(s: Seq<char>, c: char) -> int
    decreases s.len(),
{
    if s.len() == 0 {
        -1
    } else if s.last() == c {
        s.len() - 1
    } else {
        last_index_of(s.drop_last(), c)
    }
}

/// The last occurrence is an occurrence, and none follows it.
pub proof fn lemma_last_index_of(s: Seq<char>, c: char)
    ensures
        -1 <= last_index_of(s, c) < s.len(),
        last_index_of(s, c) >= 0 ==> s[last_index_of(s, c)] == c,
        forall|i: int| last_index_of(s, c) < i < s.len() ==> s[i] != c,
    decreases s.len(),
{
    if s.len() > 0 && s.last() != c {
        let head = s.drop_last();
        lemma_last_index_of(head, c);
        assert forall|i: int| last_index_of(s, c) < i < s.len() implies s[i] != c by {
            if i < head.len() {
                assert(head[i] == s[i]);
            }
        }
    }
}

/// Finds the last occurrence of a character among the first `end`
/// characters of a text.
fn find_last(s: &str, end: usize, c: char) -> (r: Option<usize>)
    requires
        end <= s@.len(),
    ensures
        match r {
            Some(i) => i < end && i == last_index_of(s@.take(end as int), c),
            None => last_index_of(s@.take(end as int), c) == -1,
        },
{
    let mut i: usize = end;
    while i > 0
        invariant
            i <= end <= s@.len(),
            last_index_of(s@.take(end as int), c) == last_index_of(s@.take(i as int), c),
        decreases i,
    {
        let ghost head = s@.take(i as int);
        assert(head.last() == s@[i - 1]);
        assert(head.drop_last() == s@.take(i - 1));
        if s.get_char(i - 1) == c {
            return Some(i - 1);
        }
        i -= 1;
    }
    None
}

/// The mathematical value of an [`AssetUrl`].
pub struct AssetUrlView {
    /// The last part of the address, without the file extension
    pub id: Seq<char>,
    /// The file extension
    pub ext: Option<Seq<char>>,
    /// Whether the address was given in the short form
    pub is_neosdb: bool,
    /// The address up to its last part
    pub url_prefix: Seq<char>,
}

/// An address taken apart. The prefix runs up to the last slash, that slash
/// included, and is a lone slash where the address has none. What follows is
/// split at its last dot into the ID and the extension; without a dot, or
/// with nothing before it, there is no extension and the ID is what follows
/// the dot.
pub open spec fn split_url(url: Seq<char>, is_neosdb: bool) -> AssetUrlView {
    let slash = last_index_of(url, '/');
    let last_path = url.skip(slash + 1);
    let url_prefix = if slash < 0 {
        seq!['/']
    } else {
        url.take(slash + 1)
    };
    let dot = last_index_of(last_path, '.');
    if dot <= 0 {
        AssetUrlView { id: last_path.skip(dot + 1), ext: None, is_neosdb, url_prefix }
    } else {
        AssetUrlView {
            id: last_path.take(dot),
            ext: Some(last_path.skip(dot + 1)),
            is_neosdb,
            url_prefix,
        }
    }
}

/// What a text means as the address of an asset. The short form stands for
/// the address under [`URL_PREFIX`]; a text of another scheme than these
/// two, or the bare short scheme, means nothing.
pub open spec fn parse_asset_url(url: Seq<char>) -> Option<AssetUrlView> {
    if NEOSDB_SCHEME@.is_prefix_of(url) && url.len() > NEOSDB_SCHEME@.len() {
        Some(split_url(URL_PREFIX@ + url.skip(NEOSDB_SCHEME@.len() as int), true))
    } else if "https://"@.is_prefix_of(url) {
        Some(split_url(url, false))
    } else {
        None
    }
}

/// An URI for a Neos asset such as a profile picture.
#[derive(Debug, Clone, PartialEq, Eq, Hash)]
pub struct AssetUrl {
    /// The last URL part without the file extension
    id: String,
    /// The file extension
    ext: Option<String>,
    is_neosdb: bool,
    /// The URL before the last URL part
    url_prefix: String,
}

impl View for AssetUrl {
    type V = AssetUrlView;

    closed spec fn view(&self) -> AssetUrlView {
        AssetUrlView {
            id: self.id@,
            ext: match self.ext {
                Some(ext) => Some(ext@),
                None => None,
            },
            is_neosdb: self.is_neosdb,
            url_prefix: self.url_prefix@,
        }
    }
}

impl AssetUrlView {
    /// The name of the file: the ID, directly followed by the extension.
    pub open spec fn filename(self) -> Seq<char> {
        match self.ext {
            Some(ext) => self.id + ext,
            None => self.id,
        }
    }

    /// The `https://` address under which the asset is found. An asset given
    /// in the short form is found without its extension.
    pub open spec fn address(self) -> Seq<char> {
        match self.ext {
            Some(ext) => if self.is_neosdb {
                self.url_prefix + self.id
            } else {
                self.url_prefix + self.id + "."@ + ext
            },
            None => self.url_prefix + self.id,
        }
    }

    /// The address in the form in which it was given.
    pub open spec fn wire_form(self) -> Seq<char> {
        let start = if self.is_neosdb {
            NEOSDB_SCHEME@
        } else {
            self.url_prefix
        };
        match self.ext {
            Some(ext) => start + self.id + "."@ + ext,
            None => start + self.id,
        }
    }
}

impl AssetUrl {
    /// Takes an address apart.
    pub fn from_url(url: &str, is_neosdb: bool) -> (r: Result<Self, &'static str>)
        ensures
            r matches Ok(asset) && asset@ == split_url(url@, is_neosdb),
    {
        let n: usize = url.unicode_len();
        assert(url@.take(n as int) == url@);
        let (url_prefix, start) = match find_last(url, n, '/') {
            Some(slash) => (String::from_str(url.substring_char(0, slash + 1)), slash + 1),
            None => {
                proof {
                    reveal_strlit("/");
                }
                assert("/"@ =~= seq!['/']);
                (String::from_str("/"), 0)
            },
        };
        let last_path = url.substring_char(start, n);
        let m: usize = n - start;
        assert(last_path@ == url@.skip(start as int));
        assert(last_path@.take(m as int) == last_path@);
        let asset = match find_last(last_path, m, '.') {
            Some(dot) => {
                if dot == 0 {
                    AssetUrl {
                        id: String::from_str(last_path.substring_char(1, m)),
                        ext: None,
                        is_neosdb,
                        url_prefix,
                    }
                } else {
                    AssetUrl {
                        id: String::from_str(last_path.substring_char(0, dot)),
                        ext: Some(String::from_str(last_path.substring_char(dot + 1, m))),
                        is_neosdb,
                        url_prefix,
                    }
                }
            },
            None => AssetUrl { id: String::from_str(last_path), ext: None, is_neosdb, url_prefix },
        };
        assert(asset@.id =~= split_url(url@, is_neosdb).id);
        assert(asset@.url_prefix =~= split_url(url@, is_neosdb).url_prefix);
        assert(asset@.ext matches Some(ext) ==> split_url(url@, is_neosdb).ext matches Some(other)
            && ext =~= other);
        Ok(asset)
    }

    /// Gets the file's name
    #[must_use]
    pub fn filename(&self) -> (r: String)
        ensures
            r@ == self@.filename(),
    {
        match &self.ext {
            Some(ext) => {
                let mut r = self.id.clone();
                r.append(ext.as_str());
                r
            },
            None => self.id.clone(),
        }
    }

    /// Gets the file's name without the extension
    #[must_use]
    pub fn id(&self) -> (r: &str)
        ensures
            r@ == self@.id,
    {
        self.id.as_str()
    }

    /// Gets the extension
    #[must_use]
    pub fn ext(&self) -> (r: &Option<String>)
        ensures
            match r {
                Some(ext) => self@.ext == Some(ext@),
                None => self@.ext is None,
            },
    {
        &self.ext
    }

    /// The `https://` URL needed to retrieve the asset.
    pub fn to_string(&self) -> (r: String)
        ensures
            r@ == self@.address(),
    {
        let mut r = self.url_prefix.clone();
        r.append(self.id.as_str());
        match &self.ext {
            Some(ext) => {
                if !self.is_neosdb {
                    r.append(".");
                    r.append(ext.as_str());
                }
            },
            None => {},
        }
        r
    }

    /// The address in the form in which it was given: the short form for an
    /// asset that came in it.
    pub fn to_wire_form(&self) -> (r: String)
        ensures
            r@ == self@.wire_form(),
    {
        let mut r = if self.is_neosdb {
            String::from_str(NEOSDB_SCHEME)
        } else {
            self.url_prefix.clone()
        };
        r.append(self.id.as_str());
        match &self.ext {
            Some(ext) => {
                r.append(".");
                r.append(ext.as_str());
            },
            None => {},
        }
        r
    }
}

impl TryFrom<&str> for AssetUrl {
    type Error = &'static str;

    /// Reads the address of an asset, in the short form or as an `https://`
    /// address.
    fn try_from(url: &str) -> (r: Result<Self, &'static str>)
        ensures
            match r {
                Ok(asset) => parse_asset_url(url@) == Some(asset@),
                Err(why) => parse_asset_url(url@) is None && why@
                    == "should start with `neosdb:///` `https://`"@,
            },
    {
        if starts_with(url, NEOSDB_SCHEME) {
            let n: usize = url.unicode_len();
            let k: usize = NEOSDB_SCHEME.unicode_len();
            if n > k {
                let mut full = String::from_str(URL_PREFIX);
                full.append(url.substring_char(k, n));
                assert(full@ == URL_PREFIX@ + url@.skip(k as int));
                return AssetUrl::from_url(full.as_str(), true);
            }
        }
        if starts_with(url, "https://") {
            return AssetUrl::from_url(url, false);
        }
        Err("should start with `neosdb:///` `https://`")
    }
}

impl TryFromSpecImpl<&str> for AssetUrl {
    open spec fn obeys_try_from_spec() -> bool {
        false
    }

    /// An asset with the value that the text means, if it means one.
    open spec fn try_from_spec(url: &str) -> Result<Self, &'static str> {
        match parse_asset_url(url@) {
            Some(value) => Ok(choose|asset: AssetUrl| asset@ == value),
            None => Err("should start with `neosdb:///` `https://`"),
        }
    }
}

} // verus!
