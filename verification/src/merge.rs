//! The header policy of request construction: which headers this library
//! computes for a request, and how they meet the headers that the transport
//! has already set.

use crate::constants::{JSON_CONTENT, USER_AGENT};
use crate::decimal::{decimal, decimal_digits, lemma_decimal_is_digits};
use crate::headers::{
    copy_headers, empty_headers, has_header, has_room, header_entries, header_name_text,
    into_pairs, is_value_text, known_name, lists_entries, no_entries, reserve_headers,
    set_header, value_from_bytes, value_from_str, Known, MAX_NAMES,
};
use http::header::{HeaderMap, InvalidHeaderValue};
use vstd::prelude::*;
use vstd::set_lib::*;
use vstd::string::*;
use vstd::utf8::*;

verus! {

/// The header set that a request starts from: the caller's own set where one
/// was given, else the default `User-Agent` alone.
pub open spec fn starting_entries(explicit: Option<Map<Seq<char>, Seq<Seq<u8>>>>) -> Map<
    Seq<char>,
    Seq<Seq<u8>>,
> {
    match explicit {
        Some(given) => given,
        None => no_entries().insert(Known::UserAgent.text(), seq![USER_AGENT.spec_bytes()]),
    }
}

/// The header set that this library computes for a request.
///
/// `Authorization` is the token, whatever the caller gave. `Content-Type` is
/// JSON where there is a body and the caller named no content type; it is
/// never added without a body and never replaces the caller's choice.
/// `Content-Length` is the decimal length of the body, zero without one,
/// whatever the caller gave.
pub open spec fn working_entries(
    explicit: Option<Map<Seq<char>, Seq<Seq<u8>>>>,
    token: Seq<u8>,
    body: Option<Seq<u8>>,
) -> Map<Seq<char>, Seq<Seq<u8>>> {
    let authorized = starting_entries(explicit).insert(Known::Authorization.text(), seq![token]);
    let typed = if body is Some && !authorized.dom().contains(Known::ContentType.text()) {
        authorized.insert(Known::ContentType.text(), seq![JSON_CONTENT.spec_bytes()])
    } else {
        authorized
    };
    let length = match body {
        Some(bytes) => bytes.len(),
        None => 0,
    };
    typed.insert(Known::ContentLength.text(), seq![decimal(length)])
}

/// The entries of an optional header map.
pub open spec fn entries_of(headers: Option<HeaderMap>) -> Option<Map<Seq<char>, Seq<Seq<u8>>>> {
    match headers {
        Some(map) => Some(header_entries(map)),
        None => None,
    }
}

/// The bytes of an optional body.
pub open spec fn bytes_of(body: Option<&[u8]>) -> Option<Seq<u8>> {
    match body {
        Some(bytes) => Some(bytes@),
        None => None,
    }
}

proof fn lemma_user_agent_is_value_text()
    ensures
        is_value_text(USER_AGENT.spec_bytes()),
{
    reveal_strlit("DiscordBot (https://discord.com, 0.1.0)");
    let chars = USER_AGENT@;
    assert(is_ascii_chars(chars));
    is_ascii_chars_encode_utf8(chars);
}

proof fn lemma_json_is_value_text()
    ensures
        is_value_text(JSON_CONTENT.spec_bytes()),
{
    reveal_strlit("application/json");
    let chars = JSON_CONTENT@;
    assert(is_ascii_chars(chars));
    is_ascii_chars_encode_utf8(chars);
}

/// Computes the header set of a request from the caller's header set, the
/// token and the body.
///
/// The caller's set is copied, never changed. The one failure is a token
/// that cannot stand in a header value.
pub fn working_headers(explicit: &Option<HeaderMap>, token: &str, body: Option<&[u8]>) -> (made:
    Result<HeaderMap, InvalidHeaderValue>)
    requires
        explicit matches Some(given) ==> has_room(header_entries(*given), 3),
    ensures
        made is Ok <==> is_value_text(token.spec_bytes()),
        made matches Ok(working) ==> header_entries(working) == working_entries(
            entries_of(*explicit),
            token.spec_bytes(),
            bytes_of(body),
        ),
{
    let mut working = match explicit {
        Some(given) => {
            let mut copy = copy_headers(given);
            reserve_headers(&mut copy, 3);
            copy
        },
        None => {
            let mut fresh = empty_headers(4);
            proof {
                lemma_user_agent_is_value_text();
            }
            match value_from_str(USER_AGENT) {
                Ok(agent) => {
                    set_header(&mut fresh, known_name(Known::UserAgent), agent);
                },
                Err(refused) => {
                    return Err(refused);
                },
            }
            fresh
        },
    };
    assert(header_entries(working) == starting_entries(entries_of(*explicit)));
    assert(has_room(header_entries(working), 3));
    match value_from_str(token) {
        Ok(secret) => {
            set_header(&mut working, known_name(Known::Authorization), secret);
        },
        Err(refused) => {
            return Err(refused);
        },
    }
    let content_type = known_name(Known::ContentType);
    if body.is_some() && !has_header(&working, &content_type) {
        proof {
            lemma_json_is_value_text();
        }
        match value_from_str(JSON_CONTENT) {
            Ok(json) => {
                set_header(&mut working, content_type, json);
            },
            Err(refused) => {
                return Err(refused);
            },
        }
    }
    let length: usize = match body {
        Some(bytes) => bytes.len(),
        None => 0,
    };
    let digits = decimal_digits(length);
    proof {
        lemma_decimal_is_digits(length as nat);
    }
    match value_from_bytes(digits.as_slice()) {
        Ok(count) => {
            set_header(&mut working, known_name(Known::ContentLength), count);
        },
        Err(refused) => {
            return Err(refused);
        },
    }
    Ok(working)
}

/// The fill-only merge of `working` into `base`: a name that `base` holds
/// keeps all that `base` stores under it; a name that only `working` holds
/// comes over with the first of its values.
pub open spec fn filled(
    base: Map<Seq<char>, Seq<Seq<u8>>>,
    working: Map<Seq<char>, Seq<Seq<u8>>>,
) -> Map<Seq<char>, Seq<Seq<u8>>> {
    Map::new(
        |key: Seq<char>| base.dom().contains(key) || working.dom().contains(key),
        |key: Seq<char>|
            if base.dom().contains(key) {
                base[key]
            } else {
                seq![working[key][0]]
            },
    )
}

/// Merges `working` into `base` without overwriting: each name of `working`
/// that `base` lacks is inserted with its first value, and what `base`
/// already holds stays untouched.
pub fn fill_missing(base: &mut HeaderMap, working: HeaderMap)
    requires
        header_entries(working).dom().finite(),
        has_room(header_entries(*old(base)), header_entries(working).dom().len()),
    ensures
        header_entries(*final(base)) == filled(header_entries(*old(base)), header_entries(working)),
{
    let ghost before = header_entries(*base);
    let ghost added = header_entries(working);
    let ghost both = before.dom().union(added.dom());
    let mut pairs = into_pairs(working);
    let ghost all = pairs@;
    proof {
        lemma_len_union(before.dom(), added.dom());
    }
    while pairs.len() > 0
        invariant
            lists_entries(all, added),
            pairs@ == all.subrange(0, pairs.len() as int),
            pairs.len() <= all.len(),
            both == before.dom().union(added.dom()),
            both.finite(),
            both.len() <= MAX_NAMES,
            header_entries(*base).dom().subset_of(both),
            forall|key: Seq<char>| #[trigger]
                before.dom().contains(key) ==> header_entries(*base).dom().contains(key)
                    && header_entries(*base)[key] == before[key],
            forall|key: Seq<char>|
                #[trigger] header_entries(*base).dom().contains(key) && !before.dom().contains(key)
                    ==> header_entries(*base)[key] == seq![added[key][0]],
            forall|i: int|
                pairs.len() <= i < all.len() && (#[trigger] all[i]).0 is Some
                    ==> header_entries(*base).dom().contains(header_name_text(all[i].0->0)),
        decreases pairs.len(),
    {
        let ghost at = pairs.len() - 1;
        let ghost current = header_entries(*base);
        let last = pairs.pop();
        assert(last == Some(all[at]));
        if let Some((Some(name), value)) = last {
            if !has_header(base, &name) {
                proof {
                    let key = header_name_text(name);
                    assert(added.dom().contains(key));
                    assert(current.dom().insert(key).subset_of(both));
                    lemma_len_subset(current.dom(), both);
                    lemma_len_subset(current.dom().insert(key), both);
                }
                set_header(base, name, value);
            }
        }
    }
    proof {
        let merged = header_entries(*base);
        let wanted = filled(before, added);
        assert forall|key: Seq<char>| wanted.dom().contains(key) implies merged.dom().contains(
            key,
        ) by {
            if !before.dom().contains(key) {
                let i = choose|i: int|
                    0 <= i < all.len() && (#[trigger] all[i]).0 is Some && header_name_text(
                        all[i].0->0,
                    ) == key;
                assert(merged.dom().contains(header_name_text(all[i].0->0)));
            }
        }
        assert(merged =~= wanted);
    }
}

/// The names of the four standard headers are four different texts.
pub proof fn lemma_known_names_differ()
    ensures
        forall|one: Known, other: Known|
            one != other ==> #[trigger] one.text() != #[trigger] other.text(),
{
    reveal_strlit("authorization");
    reveal_strlit("content-length");
    reveal_strlit("content-type");
    reveal_strlit("user-agent");
    assert(Known::Authorization.text().len() == 13);
    assert(Known::ContentLength.text().len() == 14);
    assert(Known::ContentType.text().len() == 12);
    assert(Known::UserAgent.text().len() == 10);
    assert forall|one: Known, other: Known| one != other implies #[trigger] one.text()
        != #[trigger] other.text() by {
        assert(one.text().len() != other.text().len());
    }
}

/// Content type: where neither the caller nor the transport names a content
/// type, the request carries `application/json` if it has a body, and no
/// content type at all if it has none. A content type of the caller's is
/// kept as it is.
pub proof fn law_content_type(
    base: Map<Seq<char>, Seq<Seq<u8>>>,
    explicit: Option<Map<Seq<char>, Seq<Seq<u8>>>>,
    token: Seq<u8>,
    body: Option<Seq<u8>>,
)
    requires
        !base.dom().contains(Known::ContentType.text()),
    ensures
        ({
            let key = Known::ContentType.text();
            let merged = filled(base, working_entries(explicit, token, body));
            let named = explicit is Some && explicit->0.dom().contains(key);
            &&& !named && body is Some ==> merged.dom().contains(key) && merged[key] == seq![
                JSON_CONTENT.spec_bytes(),
            ]
            &&& !named && body is None ==> !merged.dom().contains(key)
            &&& named ==> merged.dom().contains(key) && merged[key] == seq![explicit->0[key][0]]
        }),
{
    lemma_known_names_differ();
}

/// Content length: unless the transport has set one, the request's
/// `Content-Length` is the decimal length of the body, `0` without a body,
/// whatever the caller's header set holds.
pub proof fn law_content_length(
    base: Map<Seq<char>, Seq<Seq<u8>>>,
    explicit: Option<Map<Seq<char>, Seq<Seq<u8>>>>,
    token: Seq<u8>,
    body: Option<Seq<u8>>,
)
    requires
        !base.dom().contains(Known::ContentLength.text()),
    ensures
        ({
            let key = Known::ContentLength.text();
            let merged = filled(base, working_entries(explicit, token, body));
            &&& merged.dom().contains(key)
            &&& body matches Some(bytes) ==> merged[key] == seq![decimal(bytes.len())]
            &&& body is None ==> merged[key] == seq![seq![48u8]]
        }),
{
    lemma_known_names_differ();
}

/// Authorization: the computed header set always holds the token as its one
/// `Authorization`, whatever the caller's header set holds, and so does the
/// request unless the transport has set an `Authorization` of its own.
pub proof fn law_authorization(
    base: Map<Seq<char>, Seq<Seq<u8>>>,
    explicit: Option<Map<Seq<char>, Seq<Seq<u8>>>>,
    token: Seq<u8>,
    body: Option<Seq<u8>>,
)
    ensures
        ({
            let key = Known::Authorization.text();
            let working = working_entries(explicit, token, body);
            let merged = filled(base, working);
            &&& working.dom().contains(key)
            &&& working[key] == seq![token]
            &&& merged.dom().contains(key)
            &&& !base.dom().contains(key) ==> merged[key] == seq![token]
        }),
{
    lemma_known_names_differ();
}

/// Fill-only merge: every header that the transport has set is in the
/// request with exactly the values that the transport gave it, whatever this
/// library has computed under the same name; and the request holds no name
/// that neither of the two holds.
pub proof fn law_fill_only(
    base: Map<Seq<char>, Seq<Seq<u8>>>,
    working: Map<Seq<char>, Seq<Seq<u8>>>,
    key: Seq<char>,
)
    ensures
        base.dom().contains(key) ==> filled(base, working).dom().contains(key) && filled(
            base,
            working,
        )[key] == base[key],
        filled(base, working).dom().contains(key) <==> base.dom().contains(key)
            || working.dom().contains(key),
{
}

/// Default user agent: where the caller gives no header set, the computed
/// set names this client as the user agent; a header set of the caller's is
/// taken as it is, with or without a user agent.
pub proof fn law_user_agent(
    explicit: Option<Map<Seq<char>, Seq<Seq<u8>>>>,
    token: Seq<u8>,
    body: Option<Seq<u8>>,
)
    ensures
        ({
            let key = Known::UserAgent.text();
            let working = working_entries(explicit, token, body);
            &&& explicit is None ==> working.dom().contains(key) && working[key] == seq![
                USER_AGENT.spec_bytes(),
            ]
            &&& explicit matches Some(given) ==> (working.dom().contains(key)
                <==> given.dom().contains(key))
            &&& explicit matches Some(given) ==> (given.dom().contains(key) ==> working[key]
                == given[key])
        }),
{
    lemma_known_names_differ();
}

} // verus!
