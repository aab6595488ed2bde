//! What holds of every exchange with a model.

use vstd::prelude::*;

use crate::abi::{CapErrorView, LlmResponse};
use crate::llm::{
    asked_wait, backoff_ms, headers_of, key_error, shortened, usable_key, AnthropicProvider, ApiResponse, Exchange,
    KeyError, NextView, Wait,
};
use crate::policy::LlmConfig;
use crate::text::{decimal, number_of, white};
use crate::text_laws::{law_blank_is_white_space_alone, law_trim_end_cuts_what_is_dropped};

verus! {

// ---------------------------------------------------------------------------
// Requests
// ---------------------------------------------------------------------------

/// Every request carries the key, the version of the API and the type of its
/// body, and, if a fallback is configured, the flag for it; each as its own
/// header, and nothing else.
pub proof fn law_requests_carry_their_headers(config: LlmConfig, api_key: Seq<char>)
    ensures
        ({
            let headers = headers_of(config, api_key);
            &&& headers.len() == if config.server_side_fallback {
                4int
            } else {
                3
            }
            &&& headers[0] == ("x-api-key"@, api_key)
            &&& headers[1] == ("anthropic-version"@, config.api_version@)
            &&& headers[2] == ("content-type"@, "application/json"@)
            &&& config.server_side_fallback ==> headers[3] == (
                "anthropic-beta"@,
                "server-side-fallback-2026-07-01"@,
            )
        }),
{
}

/// Requests go to the configured address: all of it but the slashes at its end,
/// and behind it the path of the API.
pub proof fn law_requests_go_to_the_configured_address(provider: &AnthropicProvider, url: String)
    requires
        call_ensures(AnthropicProvider::url, (provider,), url),
    ensures
        ({
            let base = provider.config().base_url@;
            exists|k: int|
                {
                    &&& 0 <= k <= base.len()
                    &&& url@ == #[trigger] base.take(k) + "/v1/messages"@
                    &&& k > 0 ==> base[k - 1] != '/'
                    &&& forall|i: int| k <= i < base.len() ==> #[trigger] base[i] == '/'
                }
        }),
{
    let base = provider.config().base_url@;
    let drop = |c: char| c == '/';
    law_trim_end_cuts_what_is_dropped(base, drop);
    let k = crate::text::trim_end_while(base, drop).len() as int;
    assert(url@ == base.take(k) + "/v1/messages"@);
    assert forall|i: int| k <= i < base.len() implies #[trigger] base[i] == '/' by {
        assert(drop(base[i]));
    }
    if k > 0 {
        assert(base.take(k).last() == base[k - 1]);
    }
}

/// A key is usable exactly if it is set and holds anything but white space;
/// otherwise the error names the variable and says which of the two it is.
pub proof fn law_a_key_must_hold_something(variable: String, value: Option<Seq<char>>)
    ensures
        usable_key(value) <==> value is Some && exists|i: int|
            0 <= i < value->Some_0.len() && !white(#[trigger] value->Some_0[i]),
        value is None ==> key_error(variable@, value) == variable@
            + " is not set; export an API key or set llm.provider = \"mock\" in the policy"@,
        value is Some ==> key_error(variable@, value) == variable@ + " is set but empty"@,
        KeyError::NotSet(variable).message() == key_error(variable@, None),
        KeyError::Empty(variable).message() == key_error(variable@, Some(Seq::empty())),
{
    if let Some(text) = value {
        law_blank_is_white_space_alone(text);
    }
}

// ---------------------------------------------------------------------------
// Retries
// ---------------------------------------------------------------------------

/// The wait before a retry begins at half a second and doubles with each
/// attempt, five times at most.
pub proof fn law_the_wait_doubles(attempt: u32)
    ensures
        backoff_ms(0) == 500,
        attempt < 5 ==> backoff_ms((attempt + 1) as u32) == 2 * backoff_ms(attempt),
        attempt >= 5 ==> backoff_ms(attempt) == 16_000,
{
    reveal_with_fuel(crate::llm::doubled, 7);
}

/// A header asks for as many seconds as it spells, and for none if it spells no
/// number.
pub proof fn law_a_header_asks_for_seconds(value: Seq<char>)
    ensures
        asked_wait(Some(value)) == number_of(value),
        asked_wait(None) is None,
{
}

/// An attempt that could not be sent is repeated as long as a retry is left,
/// after the usual wait; then the failure is reported.
pub proof fn law_broken_connections_are_retried(exchange: Exchange, error: Seq<char>)
    ensures
        exchange.attempt < exchange.max_retries ==> exchange.after_send_error(error) == (
            Exchange {
                attempt: (exchange.attempt + 1) as u32,
                max_retries: exchange.max_retries,
            },
            NextView::Retry(Wait::Millis(backoff_ms((exchange.attempt + 1) as u32) as u64)),
        ),
        exchange.attempt >= exchange.max_retries ==> exchange.after_send_error(error) == (
            exchange,
            NextView::Fail(
                CapErrorView {
                    kind: "upstream"@,
                    message: "request to the model failed: "@ + error,
                },
            ),
        ),
{
}

/// What follows an answer. One with a status from 200 to 299 is accepted. One
/// with 429 or a status from 500 to 599 is a reason to try again, as long as a
/// retry is left: after as many seconds as the API asks for, or after the usual
/// wait. Any other is final, and so is that one when no retry is left: it is
/// reported with its status and the beginning of its text.
pub proof fn law_answers_are_judged_by_their_status(
    exchange: Exchange,
    status: u16,
    retry_after: Option<Seq<char>>,
    detail: Seq<char>,
)
    ensures
        ({
            let (later, next) = exchange.after_status(status, retry_after, detail);
            let again = (status == 429 || status / 100 == 5) && exchange.attempt
                < exchange.max_retries;
            if status / 100 == 2 {
                later == exchange && next == NextView::Accept
            } else if again {
                &&& later == (Exchange {
                    attempt: (exchange.attempt + 1) as u32,
                    max_retries: exchange.max_retries,
                })
                &&& retry_after is Some && number_of(retry_after->Some_0) is Some ==> next
                    == NextView::Retry(
                    Wait::Seconds(number_of(retry_after->Some_0)->Some_0 as u64),
                )
                &&& retry_after is None || number_of(retry_after->Some_0) is None ==> next
                    == NextView::Retry(
                    Wait::Millis(backoff_ms((exchange.attempt + 1) as u32) as u64),
                )
            } else {
                &&& later == exchange
                &&& next == NextView::Fail(
                    CapErrorView {
                        kind: "upstream"@,
                        message: "model returned HTTP "@ + decimal(status as nat) + ": "@
                            + shortened(detail, 512),
                    },
                )
            }
        }),
{
}

// ---------------------------------------------------------------------------
// Responses
// ---------------------------------------------------------------------------

/// A response of the API is handed on as it is: every block, in order, and the
/// tokens; a reason to stop that is missing is taken for the end of the turn.
pub proof fn law_responses_are_handed_on(response: ApiResponse, seen: LlmResponse)
    requires
        call_ensures(LlmResponse::from_api, (response,), seen),
    ensures
        seen.content@.len() == response.content@.len(),
        forall|i: int|
            0 <= i < seen.content@.len() ==> (#[trigger] seen.content@[i])@
                == response.content@[i]@,
        seen.usage.input_tokens == response.usage.input_tokens,
        seen.usage.output_tokens == response.usage.output_tokens,
        response.stop_reason is Some ==> seen.stop_reason@ == response.stop_reason->Some_0@,
        response.stop_reason is None ==> seen.stop_reason@ == "end_turn"@,
{
    assert(seen@.content.len() == seen.content@.len());
    assert forall|i: int| 0 <= i < seen.content@.len() implies (#[trigger] seen.content@[i])@
        == response.content@[i]@ by {
        assert(seen@.content[i] == seen.content@[i]@);
        assert(crate::abi::blocks(response.content@)[i] == response.content@[i]@);
    }
}

} // verus!
