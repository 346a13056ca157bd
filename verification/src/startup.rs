use vstd::prelude::*;
use crate::session::{Session, SessionView};

verus! {

/// Each value followed by a space, one after the other.
pub open spec fn spaced_concat(values: Seq<Seq<char>>) -> Seq<char>
    decreases values.len(),
{
    if values.len() == 0 {
        Seq::empty()
    } else {
        spaced_concat(values.drop_last()) + values.last() + " "@
    }
}

/// The parts joined with single spaces between them.
pub open spec fn join_with_spaces(parts: Seq<Seq<char>>) -> Seq<char>
    decreases parts.len(),
{
    if parts.len() == 0 {
        Seq::empty()
    } else if parts.len() == 1 {
        parts[0]
    } else {
        join_with_spaces(parts.drop_last()) + " "@ + parts.last()
    }
}

/// The prompt given with the `--prompt` (`-p`) option: each of its values
/// followed by a space.
pub fn prompt_from_flag_values(values: &Vec<String>) -> (prompt: String)
    ensures
        prompt@ == spaced_concat(values.deep_view()),
{
    let mut prompt = String::new();
    let n = values.len();
    let mut i: usize = 0;
    while i < n
        invariant
            n == values.len(),
            0 <= i <= n,
            prompt@ == spaced_concat(values.deep_view().take(i as int)),
        decreases n - i,
    {
        assert(values.deep_view().take(i + 1).drop_last() =~= values.deep_view().take(i as int));
        prompt.append(values[i].as_str());
        prompt.append(" ");
        i = i + 1;
    }
    assert(values.deep_view().take(n as int) =~= values.deep_view());
    prompt
}

/// The prompt given as bare command-line arguments: the arguments after the
/// program's own path, joined with spaces.
pub fn prompt_from_free_args(args: &Vec<String>) -> (prompt: String)
    requires
        args.len() >= 1,
    ensures
        prompt@ == join_with_spaces(args.deep_view().drop_first()),
{
    let ghost rest = args.deep_view().drop_first();
    let mut prompt = String::new();
    let n = args.len();
    let mut i: usize = 1;
    while i < n
        invariant
            n == args.len(),
            1 <= i <= n,
            rest == args.deep_view().drop_first(),
            prompt@ == join_with_spaces(rest.take(i - 1)),
        decreases n - i,
    {
        assert(rest.take(i as int).drop_last() =~= rest.take(i - 1));
        assert(rest.take(i as int).last() == args[i as int]@);
        if i > 1 {
            prompt.append(" ");
        } else {
            assert(rest.take(0) =~= Seq::<Seq<char>>::empty());
        }
        prompt.append(args[i].as_str());
        i = i + 1;
    }
    assert(rest.take(n - 1) =~= rest);
    prompt
}

/// The session after start-up.
pub open spec fn started(s: SessionView, prompt: Seq<char>, stored_key: Seq<char>) -> SessionView {
    SessionView {
        prompt: Some(prompt),
        api_key: if stored_key.len() > 0 { Some(stored_key) } else { s.api_key },
        ..s
    }
}

/// Whether a prompt given at start-up is sent right away.
pub open spec fn sends_at_startup(prompt: Seq<char>, stored_key: Seq<char>) -> bool {
    prompt.len() > 0 && stored_key.len() > 0
}

/// The session at start-up: the prompt given on the command line becomes the
/// latest prompt (even when empty), a stored API key (when not empty) becomes
/// the session's key.  Returns whether the prompt is to be sent right away:
/// exactly when there is a prompt and a stored key.
pub fn start_session(session: &mut Session, prompt: String, stored_key: String) -> (send_now: bool)
    ensures
        final(session)@ == started(old(session)@, prompt@, stored_key@),
        send_now == sends_at_startup(prompt@, stored_key@),
{
    let has_prompt = !prompt.as_str().is_empty();
    session.set_prompt(prompt);
    let key_exists = !stored_key.as_str().is_empty();
    if key_exists {
        session.set_api_key(stored_key);
    }
    has_prompt && key_exists
}

/// The two ways of giving a prompt at start-up differ by one trailing space:
/// `-p a b` gives the prompt of the bare arguments `a b` followed by a space.
pub proof fn lemma_flag_prompt_is_joined_prompt_and_space(values: Seq<Seq<char>>)
    requires
        values.len() > 0,
    ensures
        spaced_concat(values) == join_with_spaces(values) + " "@,
    decreases values.len(),
{
    if values.len() == 1 {
        assert(values.drop_last() =~= Seq::<Seq<char>>::empty());
        assert(spaced_concat(values.drop_last()) =~= Seq::<char>::empty());
        assert(spaced_concat(values) =~= values[0] + " "@);
    } else {
        lemma_flag_prompt_is_joined_prompt_and_space(values.drop_last());
        assert(spaced_concat(values) =~= join_with_spaces(values) + " "@);
    }
}

/// A prompt sent right away at start-up is not empty and goes with the stored
/// API key.
pub proof fn lemma_sent_prompt_has_key(s: SessionView, prompt: Seq<char>, stored_key: Seq<char>)
    requires
        sends_at_startup(prompt, stored_key),
    ensures
        started(s, prompt, stored_key).api_key == Some(stored_key),
        started(s, prompt, stored_key).prompt == Some(prompt),
        prompt.len() > 0,
{
}

/// Whether a prompt is sent at start-up does not depend on how it was given:
/// every non-empty prompt is sent when a non-empty key is stored, and no other.
pub proof fn lemma_startup_send_decision(prompt: Seq<char>, stored_key: Seq<char>)
    ensures
        sends_at_startup(prompt, stored_key) <==> (prompt.len() > 0 && stored_key.len() > 0),
        prompt.len() > 0 && stored_key.len() > 0 ==> sends_at_startup(prompt, stored_key),
        prompt.len() == 0 ==> !sends_at_startup(prompt, stored_key),
        stored_key.len() == 0 ==> !sends_at_startup(prompt, stored_key),
{
}

/// Joining words with spaces keeps the first word at the front, so it is never
/// shorter than the first word.
pub proof fn lemma_join_keeps_first(parts: Seq<Seq<char>>)
    requires
        parts.len() > 0,
    ensures
        join_with_spaces(parts).len() >= parts[0].len(),
    decreases parts.len(),
{
    if parts.len() > 1 {
        lemma_join_keeps_first(parts.drop_last());
    }
}

/// A prompt given as bare arguments (`app what is rust`, no trailing space) is
/// sent right away at start-up like one given with `-p`, as soon as a key is
/// stored and the first argument is not empty.
pub proof fn lemma_bare_argument_prompt_is_sent(args: Seq<Seq<char>>, stored_key: Seq<char>)
    requires
        args.len() >= 2,
        args[1].len() > 0,
        stored_key.len() > 0,
    ensures
        sends_at_startup(join_with_spaces(args.drop_first()), stored_key),
        sends_at_startup(spaced_concat(args.drop_first()), stored_key),
{
    lemma_join_keeps_first(args.drop_first());
    lemma_flag_prompt_is_joined_prompt_and_space(args.drop_first());
}

/// Start-up sets the latest prompt to the prompt given, takes a non-empty
/// stored key as the API key (an empty one leaves the key as it was), and
/// touches nothing else.
pub proof fn lemma_startup_session(s: SessionView, prompt: Seq<char>, stored_key: Seq<char>)
    ensures
        started(s, prompt, stored_key).prompt == Some(prompt),
        stored_key.len() > 0 ==> started(s, prompt, stored_key).api_key == Some(stored_key),
        stored_key.len() == 0 ==> started(s, prompt, stored_key).api_key == s.api_key,
        started(s, prompt, stored_key).previous_prompt == s.previous_prompt,
        started(s, prompt, stored_key).response == s.response,
        started(s, prompt, stored_key).previous_response == s.previous_response,
{
}

/// The words of a prompt are kept verbatim and in order: one word is the word
/// itself, and each further word comes after a single space; with `-p`, each
/// word is followed by a single space.
pub proof fn lemma_prompt_words(parts: Seq<Seq<char>>, w: Seq<char>)
    ensures
        join_with_spaces(seq![w]) == w,
        parts.len() > 0 ==> join_with_spaces(parts.push(w)) == join_with_spaces(parts) + seq![' '] + w,
        spaced_concat(Seq::<Seq<char>>::empty()) == Seq::<char>::empty(),
        spaced_concat(parts.push(w)) == spaced_concat(parts) + w + seq![' '],
{
    reveal_strlit(" ");
    assert(" "@ =~= seq![' ']);
    assert(parts.push(w).drop_last() =~= parts);
    assert(parts.push(w).last() == w);
    if parts.len() > 0 {
        assert(parts.push(w).len() > 1);
    }
}

} // verus!
