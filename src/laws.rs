//! Properties of the whole pipeline, stated over the models that the
//! functions' contracts use.
use vstd::prelude::*;
use crate::evaluate::{
    input_message, pattern_message, regex_error, regex_finds, request_verdict,
    INPUT_PREFIX, PATTERN_PREFIX,
};
use crate::reader::{bounded, INPUT_LIMIT};
use crate::response::reply;

verus! {

proof fn lemma_prefixes_nonempty()
    ensures
        INPUT_PREFIX@.len() > 0,
        PATTERN_PREFIX@.len() > 0,
{
    reveal_strlit("unable to parse the input json: ");
    reveal_strlit("invalid regular expression: ");
}

/// A pattern that compiles is answered with the engine's match outcome and
/// an empty error.
pub proof fn law_valid_pattern_reply(pattern: Seq<char>, text: Seq<char>)
    requires
        regex_error(pattern) is None,
    ensures
        reply(request_verdict(Ok((pattern, text)))) == (regex_finds(pattern, text), Seq::<char>::empty()),
{
}

/// A pattern that does not compile is answered with no match and a
/// non-empty diagnostic, whatever the text.
pub proof fn law_invalid_pattern_reply(pattern: Seq<char>, text: Seq<char>)
    requires
        regex_error(pattern) is Some,
    ensures
        !reply(request_verdict(Ok((pattern, text)))).0,
        reply(request_verdict(Ok((pattern, text)))).1.len() > 0,
        reply(request_verdict(Ok((pattern, text)))).1 == pattern_message(regex_error(pattern)->0),
{
    lemma_prefixes_nonempty();
}

/// An input document that does not decode is answered with no match and a
/// non-empty diagnostic that embeds the decoder's.
pub proof fn law_malformed_input_reply(diag: Seq<char>)
    ensures
        !reply(request_verdict(Err(diag))).0,
        reply(request_verdict(Err(diag))).1.len() > 0,
        reply(request_verdict(Err(diag))).1 == input_message(diag),
{
    lemma_prefixes_nonempty();
}

/// The reply is a function of what was decoded: answering the same request
/// twice gives the same reply.
pub proof fn law_reply_repeatable(
    first: Result<(Seq<char>, Seq<char>), Seq<char>>,
    second: Result<(Seq<char>, Seq<char>), Seq<char>>,
)
    requires
        first == second,
    ensures
        reply(request_verdict(first)) == reply(request_verdict(second)),
{
}

/// The kept bytes are a prefix of the stream, as long as the stream or the
/// limit, whichever is shorter: a stream of exactly the limit is kept whole.
pub proof fn law_bounded_prefix(s: Seq<u8>)
    ensures
        bounded(s).len() == if s.len() <= INPUT_LIMIT { s.len() } else { INPUT_LIMIT as nat },
        bounded(s) == s.take(bounded(s).len() as int),
        s.len() <= INPUT_LIMIT ==> bounded(s) == s,
{
    assert(s.take(s.len() as int) == s);
}

/// Reading in chunks keeps the same bytes as bounding the whole stream at
/// once: bounding what was kept so far and then what follows changes nothing.
pub proof fn law_bounded_in_chunks(kept: Seq<u8>, rest: Seq<u8>)
    ensures
        bounded(bounded(kept) + rest) == bounded(kept + rest),
{
    if kept.len() > INPUT_LIMIT {
        assert((kept.take(INPUT_LIMIT as int) + rest).take(INPUT_LIMIT as int) == kept.take(
            INPUT_LIMIT as int,
        ));
        assert((kept + rest).take(INPUT_LIMIT as int) == kept.take(INPUT_LIMIT as int));
    }
}

} // verus!
