//! The requests: the four addresses the client asks, and the closed set of
//! extra sections that a lookup can ask for.
//!
//! An address is written here as plain text; escaping what a URL cannot hold
//! is left to the transport that sends it.

use crate::error::{ApiError, ApiErrorView};
use crate::text::{
    decimal, decimal_string, join_texts, joined, same_text, split_words, texts_of, words,
};
use vstd::prelude::*;

verus! {

/// A section of extra data that a lookup can ask the server to add.
#[derive(Debug, Clone, Copy, PartialEq, Eq)]
pub enum DataSelector {
    Achievements,
    Friends,
    FreeCompany,
    FreeCompanyMembers,
    Minions,
    /// The server keeps mounts and minions in one section, so this selector
    /// and [`DataSelector::Minions`] are sent as the same token.
    Mounts,
    PvpTeam,
}

impl DataSelector {
    /// The token that stands for the selector in a request.
    pub open spec fn token_text(self) -> Seq<char> {
        match self {
            DataSelector::Achievements => "AC"@,
            DataSelector::Friends => "FR"@,
            DataSelector::FreeCompany => "FC"@,
            DataSelector::FreeCompanyMembers => "FCM"@,
            DataSelector::Minions => "MIMO"@,
            DataSelector::Mounts => "MIMO"@,
            DataSelector::PvpTeam => "PVP"@,
        }
    }

    /// The token that stands for the selector in a request.
    pub fn token(&self) -> (t: &'static str)
        ensures
            t@ == self.token_text(),
    {
        match self {
            DataSelector::Achievements => "AC",
            DataSelector::Friends => "FR",
            DataSelector::FreeCompany => "FC",
            DataSelector::FreeCompanyMembers => "FCM",
            DataSelector::Minions => "MIMO",
            DataSelector::Mounts => "MIMO",
            DataSelector::PvpTeam => "PVP",
        }
    }

    /// The selector that a token stands for, or `None` for a text that is no
    /// token. The token that two selectors share is read as the first.
    pub fn from_token(token: &str) -> (r: Option<DataSelector>)
        ensures
            r == selector_of(token@),
    {
        if same_text(token, "AC") {
            Some(DataSelector::Achievements)
        } else if same_text(token, "FR") {
            Some(DataSelector::Friends)
        } else if same_text(token, "FC") {
            Some(DataSelector::FreeCompany)
        } else if same_text(token, "FCM") {
            Some(DataSelector::FreeCompanyMembers)
        } else if same_text(token, "MIMO") {
            Some(DataSelector::Minions)
        } else if same_text(token, "PVP") {
            Some(DataSelector::PvpTeam)
        } else {
            None
        }
    }
}

/// The selector that a token stands for.
pub open spec fn selector_of(token: Seq<char>) -> Option<DataSelector> {
    if token == "AC"@ {
        Some(DataSelector::Achievements)
    } else if token == "FR"@ {
        Some(DataSelector::Friends)
    } else if token == "FC"@ {
        Some(DataSelector::FreeCompany)
    } else if token == "FCM"@ {
        Some(DataSelector::FreeCompanyMembers)
    } else if token == "MIMO"@ {
        Some(DataSelector::Minions)
    } else if token == "PVP"@ {
        Some(DataSelector::PvpTeam)
    } else {
        None
    }
}

/// The selectors that a list of tokens stands for, or the first text of the
/// list that is no token.
pub open spec fn selectors_of(tokens: Seq<&str>) -> Result<Seq<DataSelector>, Seq<char>>
    decreases tokens.len(),
{
    if tokens.len() == 0 {
        Ok(Seq::empty())
    } else {
        match selectors_of(tokens.drop_last()) {
            Err(token) => Err(token),
            Ok(front) => match selector_of(tokens.last()@) {
                Some(selector) => Ok(front.push(selector)),
                None => Err(tokens.last()@),
            },
        }
    }
}

/// The tokens of a list of selectors.
pub open spec fn tokens_of(selectors: Seq<DataSelector>) -> Seq<Seq<char>> {
    Seq::new(selectors.len(), |i: int| selectors[i].token_text())
}

/// The name as a search sends it: its words joined by `+`.
pub open spec fn name_token(name: Seq<char>) -> Seq<char> {
    joined(words(name), "+"@)
}

/// The parameters of a search, in the order in which they are sent: the
/// name, then the server if one is given, then the page if one is given.
pub open spec fn search_params(name: Seq<char>, server: Option<Seq<char>>, page: Option<u8>) -> Seq<
    Seq<char>,
> {
    let first = Seq::empty().push("name="@ + name_token(name));
    let second = match server {
        Some(s) => first.push("server="@ + s),
        None => first,
    };
    match page {
        Some(p) => second.push("page="@ + decimal(p as nat)),
        None => second,
    }
}

/// The parameters of a lookup: `extended=1` where the extended form is
/// asked for, then `data=` with the tokens joined by commas where at least
/// one selector is given.
pub open spec fn lookup_params(extended: bool, selectors: Seq<DataSelector>) -> Seq<Seq<char>> {
    let first = if extended {
        Seq::empty().push("extended=1"@)
    } else {
        Seq::empty()
    };
    if selectors.len() > 0 {
        first.push("data="@ + joined(tokens_of(selectors), ","@))
    } else {
        first
    }
}

/// What the parameters add to an address: nothing where there are none,
/// else a question mark and the parameters joined by `&`.
pub open spec fn query_suffix(params: Seq<Seq<char>>) -> Seq<char> {
    if params.len() == 0 {
        Seq::empty()
    } else {
        "?"@ + joined(params, "&"@)
    }
}

/// The address of a search for characters.
pub open spec fn character_search_address(
    name: Seq<char>,
    server: Option<Seq<char>>,
    page: Option<u8>,
) -> Seq<char> {
    "https://xivapi.com/character/search"@ + query_suffix(search_params(name, server, page))
}

/// The address of a search for free companies.
pub open spec fn free_company_search_address(
    name: Seq<char>,
    server: Option<Seq<char>>,
    page: Option<u8>,
) -> Seq<char> {
    "https://xivapi.com/freecompany/search"@ + query_suffix(search_params(name, server, page))
}

/// The address of the lookup of a character.
pub open spec fn character_lookup_address(
    id: u32,
    extended: bool,
    selectors: Seq<DataSelector>,
) -> Seq<char> {
    "https://xivapi.com/character/"@ + decimal(id as nat) + query_suffix(
        lookup_params(extended, selectors),
    )
}

/// The address of the lookup of a free company.
pub open spec fn free_company_lookup_address(
    id: Seq<char>,
    extended: bool,
    selectors: Seq<DataSelector>,
) -> Seq<char> {
    "https://xivapi.com/freecompany/"@ + id + query_suffix(lookup_params(extended, selectors))
}

/// The text of an optional string.
pub open spec fn text_of(s: Option<&str>) -> Option<Seq<char>> {
    match s {
        Some(t) => Some(t@),
        None => None,
    }
}

/// The selectors that a request names, where `data` holds what the caller
/// wrote: none where nothing was written.
pub open spec fn requested(data: Option<Vec<&str>>) -> Result<Seq<DataSelector>, Seq<char>> {
    match data {
        Some(tokens) => selectors_of(tokens@),
        None => Ok(Seq::empty()),
    }
}

/// Whether a result is the address that the model expects, or the refusal
/// of the text that the model names.
pub open spec fn is_request(
    r: Result<String, ApiError>,
    expected: Result<Seq<char>, Seq<char>>,
) -> bool {
    match r {
        Ok(address) => expected == Ok::<Seq<char>, Seq<char>>(address@),
        Err(e) => expected is Err && e.deep_view() == ApiErrorView::InvalidSelector(
            expected->Err_0,
        ),
    }
}

/// Joining parts gives a text at least as long as the last of them.
proof fn lemma_joined_len(parts: Seq<Seq<char>>, sep: Seq<char>)
    requires
        parts.len() > 0,
    ensures
        joined(parts, sep).len() >= parts.last().len(),
{
}

/// A lookup sends `extended=1` exactly when the extended form is asked for.
/// It sends a `data=` parameter exactly when at least one selector is given,
/// and never one without a token behind it.
pub proof fn lemma_lookup_params(extended: bool, selectors: Seq<DataSelector>)
    ensures
        lookup_params(extended, selectors).contains("extended=1"@) <==> extended,
        (exists|i: int|
            0 <= i < lookup_params(extended, selectors).len() && "data="@.is_prefix_of(
                #[trigger] lookup_params(extended, selectors)[i],
            )) <==> selectors.len() > 0,
        forall|i: int|
            0 <= i < lookup_params(extended, selectors).len() ==> #[trigger] lookup_params(
                extended,
                selectors,
            )[i] != "data="@,
{
    reveal_strlit("extended=1");
    reveal_strlit("data=");
    let params = lookup_params(extended, selectors);
    let flag = "extended=1"@;
    let data = "data="@ + joined(tokens_of(selectors), ","@);
    assert("data="@.is_prefix_of(data));
    assert(!"data="@.is_prefix_of(flag)) by {
        if "data="@.is_prefix_of(flag) {
            assert(flag.subrange(0, 5)[0] == flag[0]);
        }
    }
    if selectors.len() > 0 {
        let tokens = tokens_of(selectors);
        lemma_joined_len(tokens, ","@);
        lemma_token_len(selectors[selectors.len() - 1]);
    }
    if extended {
        assert(params[0] == flag);
        if selectors.len() > 0 {
            assert("data="@.is_prefix_of(params[1]));
        }
    } else {
        if selectors.len() > 0 {
            assert("data="@.is_prefix_of(params[0]));
        }
    }
}

/// Every token has at least two characters.
proof fn lemma_token_len(selector: DataSelector)
    ensures
        selector.token_text().len() >= 2,
{
    reveal_strlit("AC");
    reveal_strlit("FR");
    reveal_strlit("FC");
    reveal_strlit("FCM");
    reveal_strlit("MIMO");
    reveal_strlit("PVP");
}

/// Every selector's token is read as a selector that is sent as that token:
/// what `from_token` accepts is what `token` writes.
pub proof fn lemma_token_is_read(selector: DataSelector)
    ensures
        selector_of(selector.token_text()) is Some,
        selector_of(selector.token_text())->0.token_text() == selector.token_text(),
{
    reveal_strlit("AC");
    reveal_strlit("FR");
    reveal_strlit("FC");
    reveal_strlit("FCM");
    reveal_strlit("MIMO");
    reveal_strlit("PVP");
}

/// A text that is read as a selector is the token of that selector: a
/// request sends the names of the sections as the caller wrote them.
pub proof fn lemma_read_token_is_sent(token: Seq<char>)
    requires
        selector_of(token) is Some,
    ensures
        selector_of(token)->0.token_text() == token,
{
}

/// The name as a search sends it.
pub fn name_as_token(name: &str) -> (token: String)
    ensures
        token@ == name_token(name@),
{
    let parts = split_words(name);
    join_texts(&parts, "+")
}

/// The parameters of a search, joined by `&`.
pub fn search_query(name: &str, server: Option<&str>, page: Option<u8>) -> (query: String)
    ensures
        query@ == joined(search_params(name@, text_of(server), page), "&"@),
{
    let mut params: Vec<String> = Vec::new();
    let mut first = "name=".to_owned();
    first.append(name_as_token(name).as_str());
    params.push(first);
    assert(texts_of(params@) =~= Seq::empty().push("name="@ + name_token(name@)));
    if let Some(s) = server {
        let ghost before = texts_of(params@);
        let mut param = "server=".to_owned();
        param.append(s);
        params.push(param);
        assert(texts_of(params@) =~= before.push("server="@ + s@));
    }
    if let Some(p) = page {
        let ghost before = texts_of(params@);
        let mut param = "page=".to_owned();
        param.append(decimal_string(p as u64).as_str());
        params.push(param);
        assert(texts_of(params@) =~= before.push("page="@ + decimal(p as nat)));
    }
    join_texts(&params, "&")
}

/// The parameters of a lookup, joined by `&`.
pub fn lookup_query(extended: bool, selectors: &Vec<DataSelector>) -> (query: String)
    ensures
        query@ == joined(lookup_params(extended, selectors@), "&"@),
{
    let mut params: Vec<String> = Vec::new();
    if extended {
        params.push("extended=1".to_owned());
        assert(texts_of(params@) =~= Seq::empty().push("extended=1"@));
    }
    if selectors.len() > 0 {
        let mut tokens: Vec<String> = Vec::new();
        let mut i: usize = 0;
        while i < selectors.len()
            invariant
                0 <= i <= selectors.len(),
                texts_of(tokens@) == tokens_of(selectors@).take(i as int),
            decreases selectors.len() - i,
        {
            let ghost before = texts_of(tokens@);
            tokens.push(selectors[i].token().to_owned());
            assert(tokens_of(selectors@).take(i + 1) =~= before.push(
                selectors@[i as int].token_text(),
            ));
            i = i + 1;
        }
        assert(tokens_of(selectors@).take(selectors.len() as int) =~= tokens_of(selectors@));
        let ghost before = texts_of(params@);
        let mut param = "data=".to_owned();
        param.append(join_texts(&tokens, ",").as_str());
        params.push(param);
        assert(texts_of(params@) =~= before.push(
            "data="@ + joined(tokens_of(selectors@), ","@),
        ));
    }
    join_texts(&params, "&")
}

/// Reads the names of the extra sections that a caller wrote. The first
/// text that is no token is refused.
pub fn parse_selectors(tokens: &Vec<&str>) -> (r: Result<Vec<DataSelector>, ApiError>)
    ensures
        match r {
            Ok(selectors) => selectors_of(tokens@) == Ok::<Seq<DataSelector>, Seq<char>>(
                selectors@,
            ),
            Err(e) => selectors_of(tokens@) is Err && e.deep_view()
                == ApiErrorView::InvalidSelector(selectors_of(tokens@)->Err_0),
        },
{
    let mut selectors: Vec<DataSelector> = Vec::new();
    let mut i: usize = 0;
    while i < tokens.len()
        invariant
            0 <= i <= tokens.len(),
            selectors_of(tokens@.take(i as int)) == Ok::<Seq<DataSelector>, Seq<char>>(
                selectors@,
            ),
        decreases tokens.len() - i,
    {
        proof {
            assert(tokens@.take(i + 1).drop_last() =~= tokens@.take(i as int));
        }
        match DataSelector::from_token(tokens[i]) {
            Some(selector) => {
                selectors.push(selector);
            },
            None => {
                proof {
                    lemma_selectors_failure(tokens@, i + 1);
                }
                return Err(ApiError::InvalidSelector(tokens[i].to_owned()));
            },
        }
        i = i + 1;
    }
    proof {
        assert(tokens@.take(tokens.len() as int) =~= tokens@);
    }
    Ok(selectors)
}

/// A text that is no token among the first of a list is the one the whole
/// list is refused for.
proof fn lemma_selectors_failure(tokens: Seq<&str>, k: int)
    requires
        0 <= k <= tokens.len(),
        selectors_of(tokens.take(k)) is Err,
    ensures
        selectors_of(tokens) == selectors_of(tokens.take(k)),
    decreases tokens.len() - k,
{
    if k == tokens.len() {
        assert(tokens.take(k) =~= tokens);
    } else {
        assert(tokens.drop_last().take(k) =~= tokens.take(k));
        lemma_selectors_failure(tokens.drop_last(), k);
    }
}

/// The selectors that a request names, or the refusal of the first text
/// that is no token.
fn requested_selectors(data: Option<Vec<&str>>) -> (r: Result<Vec<DataSelector>, ApiError>)
    ensures
        match r {
            Ok(selectors) => requested(data) == Ok::<Seq<DataSelector>, Seq<char>>(selectors@),
            Err(e) => requested(data) is Err && e.deep_view() == ApiErrorView::InvalidSelector(
                requested(data)->Err_0,
            ),
        },
{
    match data {
        Some(tokens) => parse_selectors(&tokens),
        None => Ok(Vec::new()),
    }
}

/// What the parameters of a search add to an address.
fn search_suffix(name: &str, server: Option<&str>, page: Option<u8>) -> (suffix: String)
    ensures
        suffix@ == query_suffix(search_params(name@, text_of(server), page)),
{
    let mut suffix = "?".to_owned();
    suffix.append(search_query(name, server, page).as_str());
    suffix
}

/// What the parameters of a lookup add to an address.
fn lookup_suffix(extended: bool, selectors: &Vec<DataSelector>) -> (suffix: String)
    ensures
        suffix@ == query_suffix(lookup_params(extended, selectors@)),
{
    if !extended && selectors.len() == 0 {
        String::new()
    } else {
        let mut suffix = "?".to_owned();
        suffix.append(lookup_query(extended, selectors).as_str());
        suffix
    }
}

/// The address of a search for the characters of a name, on one server or
/// on all, page by page.
pub fn character_search_url(name: &str, server: Option<&str>, page: Option<u8>) -> (url: String)
    ensures
        url@ == character_search_address(name@, text_of(server), page),
{
    let mut url = "https://xivapi.com/character/search".to_owned();
    url.append(search_suffix(name, server, page).as_str());
    url
}

/// The address of a search for the free companies of a name.
pub fn free_company_search_url(name: &str, server: Option<&str>, page: Option<u8>) -> (url: String)
    ensures
        url@ == free_company_search_address(name@, text_of(server), page),
{
    let mut url = "https://xivapi.com/freecompany/search".to_owned();
    url.append(search_suffix(name, server, page).as_str());
    url
}

/// The address of the lookup of the character `id`.
pub fn character_lookup_url(id: u32, extended: bool, selectors: &Vec<DataSelector>) -> (url: String)
    ensures
        url@ == character_lookup_address(id, extended, selectors@),
{
    let mut url = "https://xivapi.com/character/".to_owned();
    url.append(decimal_string(id as u64).as_str());
    url.append(lookup_suffix(extended, selectors).as_str());
    url
}

/// The address of the lookup of the free company `id`.
pub fn free_company_lookup_url(id: &str, extended: bool, selectors: &Vec<DataSelector>) -> (url:
    String)
    ensures
        url@ == free_company_lookup_address(id@, extended, selectors@),
{
    let mut url = "https://xivapi.com/freecompany/".to_owned();
    url.append(id);
    url.append(lookup_suffix(extended, selectors).as_str());
    url
}

/// The address of the lookup of a character, from the names of the extra
/// sections as the caller wrote them. A name that is no token is refused
/// before anything is sent.
pub fn character_lookup_request(id: u32, extended: bool, data: Option<Vec<&str>>) -> (r: Result<
    String,
    ApiError,
>)
    ensures
        is_request(
            r,
            match requested(data) {
                Ok(selectors) => Ok(character_lookup_address(id, extended, selectors)),
                Err(token) => Err(token),
            },
        ),
{
    match requested_selectors(data) {
        Ok(selectors) => Ok(character_lookup_url(id, extended, &selectors)),
        Err(e) => Err(e),
    }
}

/// The address of the lookup of a free company, from the names of the extra
/// sections as the caller wrote them. A name that is no token is refused
/// before anything is sent.
pub fn free_company_lookup_request(id: &str, extended: bool, data: Option<Vec<&str>>) -> (r: Result<
    String,
    ApiError,
>)
    ensures
        is_request(
            r,
            match requested(data) {
                Ok(selectors) => Ok(free_company_lookup_address(id@, extended, selectors)),
                Err(token) => Err(token),
            },
        ),
{
    match requested_selectors(data) {
        Ok(selectors) => Ok(free_company_lookup_url(id, extended, &selectors)),
        Err(e) => Err(e),
    }
}

} // verus!
