//! Lays a conversation out in a chat template.
use vstd::prelude::*;

use super::context::{history_texts, PromptContext};

verus! {

/// The markers that a chat template puts around each part of a conversation.
/// Each marker has a spec function that says what the method returns.
pub trait PromptTemplate {
    spec fn spec_system_start(&self) -> Seq<char>;

    spec fn spec_system_end(&self) -> Seq<char>;

    spec fn spec_user_start(&self) -> Seq<char>;

    spec fn spec_user_end(&self) -> Seq<char>;

    spec fn spec_assistant_start(&self) -> Seq<char>;

    fn system_start(&self) -> (r: &str)
        ensures
            r@ == self.spec_system_start(),
    ;

    fn system_end(&self) -> (r: &str)
        ensures
            r@ == self.spec_system_end(),
    ;

    fn user_start(&self) -> (r: &str)
        ensures
            r@ == self.spec_user_start(),
    ;

    fn user_end(&self) -> (r: &str)
        ensures
            r@ == self.spec_user_end(),
    ;

    fn assistant_start(&self) -> (r: &str)
        ensures
            r@ == self.spec_assistant_start(),
    ;
}

/// The user turns of a history: each message between the user markers, in order.
pub open spec fn history_turns(history: Seq<Seq<char>>, start: Seq<char>, end: Seq<char>) -> Seq<char>
    decreases history.len(),
{
    if history.len() == 0 {
        Seq::empty()
    } else {
        history_turns(history.drop_last(), start, end) + start + history.last() + end
    }
}

/// The prompt for `ctx` with the given markers: the system message between the
/// system markers, each history message and then the user message between the
/// user markers, and the assistant marker that opens the answer.
pub open spec fn spec_assemble(
    ctx: PromptContext,
    system_start: Seq<char>,
    system_end: Seq<char>,
    user_start: Seq<char>,
    user_end: Seq<char>,
    assistant_start: Seq<char>,
) -> Seq<char> {
    system_start + ctx.system@ + system_end
        + history_turns(history_texts(ctx.history@), user_start, user_end)
        + user_start + ctx.user@ + user_end + assistant_start
}

/// The ChatML template of the Qwen models.
pub struct QwenTemplate;

impl PromptTemplate for QwenTemplate {
    open spec fn spec_system_start(&self) -> Seq<char> {
        "<|im_start|>system\n"@
    }

    open spec fn spec_system_end(&self) -> Seq<char> {
        "<|im_end|>\n"@
    }

    open spec fn spec_user_start(&self) -> Seq<char> {
        "<|im_start|>user\n"@
    }

    open spec fn spec_user_end(&self) -> Seq<char> {
        "<|im_end|>\n"@
    }

    open spec fn spec_assistant_start(&self) -> Seq<char> {
        "<|im_start|>assistant\n"@
    }

    fn system_start(&self) -> (r: &str) {
        "<|im_start|>system\n"
    }

    fn system_end(&self) -> (r: &str) {
        "<|im_end|>\n"
    }

    fn user_start(&self) -> (r: &str) {
        "<|im_start|>user\n"
    }

    fn user_end(&self) -> (r: &str) {
        "<|im_end|>\n"
    }

    fn assistant_start(&self) -> (r: &str) {
        "<|im_start|>assistant\n"
    }
}

/// The prompt for `ctx` in `template`.
pub open spec fn spec_assemble_in<T: PromptTemplate>(ctx: PromptContext, template: T) -> Seq<char> {
    spec_assemble(
        ctx,
        template.spec_system_start(),
        template.spec_system_end(),
        template.spec_user_start(),
        template.spec_user_end(),
        template.spec_assistant_start(),
    )
}

/// The prompt for `ctx` in the Qwen template.
pub open spec fn qwen_prompt(ctx: PromptContext) -> Seq<char> {
    spec_assemble(
        ctx,
        "<|im_start|>system\n"@,
        "<|im_end|>\n"@,
        "<|im_start|>user\n"@,
        "<|im_end|>\n"@,
        "<|im_start|>assistant\n"@,
    )
}

/// Lay `ctx` out in the Qwen template.
pub fn assemble(ctx: &PromptContext) -> (r: String)
    ensures
        r@ == qwen_prompt(*ctx),
        r@ == spec_assemble_in(*ctx, QwenTemplate),
{
    assemble_with_template(ctx, QwenTemplate)
}

/// Lay `ctx` out in `template`.
pub fn assemble_with_template<T: PromptTemplate>(ctx: &PromptContext, template: T) -> (r: String)
    ensures
        r@ == spec_assemble_in(*ctx, template),
{
    let ss = template.system_start();
    let se = template.system_end();
    let us = template.user_start();
    let ue = template.user_end();
    let a = template.assistant_start();
    assemble_with_markers(ctx, ss, se, us, ue, a)
}

/// Lay `ctx` out with the given markers.
pub fn assemble_with_markers(
    ctx: &PromptContext,
    system_start: &str,
    system_end: &str,
    user_start: &str,
    user_end: &str,
    assistant_start: &str,
) -> (r: String)
    ensures
        r@ == spec_assemble(*ctx, system_start@, system_end@, user_start@, user_end@, assistant_start@),
{
    let ghost texts = history_texts(ctx.history@);
    let mut result = String::new();
    result.append(system_start);
    result.append(ctx.system.as_str());
    result.append(system_end);
    let ghost head = result@;
    let n = ctx.history.len();
    let mut i: usize = 0;
    while i < n
        invariant
            n == ctx.history@.len(),
            texts == history_texts(ctx.history@),
            i <= n,
            result@ == head + history_turns(texts.take(i as int), user_start@, user_end@),
        decreases n - i,
    {
        result.append(user_start);
        result.append(ctx.history[i].as_str());
        result.append(user_end);
        assert(texts.take(i + 1).drop_last() =~= texts.take(i as int));
        assert(texts.take(i + 1).last() == ctx.history@[i as int]@);
        i = i + 1;
    }
    assert(texts.take(n as int) =~= texts);
    result.append(user_start);
    result.append(ctx.user.as_str());
    result.append(user_end);
    result.append(assistant_start);
    result
}

/// Every assembled prompt opens with the system message between the system
/// markers, and closes with the user message between the user markers
/// followed by the assistant marker.
pub proof fn lemma_assembled_frame(
    ctx: PromptContext,
    ss: Seq<char>,
    se: Seq<char>,
    us: Seq<char>,
    ue: Seq<char>,
    a: Seq<char>,
)
    ensures
        ({
            let p = spec_assemble(ctx, ss, se, us, ue, a);
            let head = ss + ctx.system@ + se;
            let tail = us + ctx.user@ + ue + a;
            &&& head.len() + tail.len() <= p.len()
            &&& p.take(head.len() as int) == head
            &&& p.skip(p.len() - tail.len()) == tail
        }),
{
    let p = spec_assemble(ctx, ss, se, us, ue, a);
    let head = ss + ctx.system@ + se;
    let mid = history_turns(history_texts(ctx.history@), us, ue);
    let tail = us + ctx.user@ + ue + a;
    assert(p =~= head + mid + tail);
    assert((head + mid + tail).take(head.len() as int) =~= head);
    assert((head + mid + tail).skip(p.len() - tail.len()) =~= tail);
}

/// Adding a message to the history adds exactly one user turn to the prompt,
/// placed just before the turn of the current user message: `after` is the
/// context that `add_history(msg)` leaves behind `before`.
pub proof fn lemma_add_history_adds_turn(
    before: PromptContext,
    after: PromptContext,
    msg: String,
    ss: Seq<char>,
    se: Seq<char>,
    us: Seq<char>,
    ue: Seq<char>,
    a: Seq<char>,
)
    requires
        after.system == before.system,
        after.user == before.user,
        after.history@ == before.history@.push(msg),
    ensures
        ({
            let p = spec_assemble(before, ss, se, us, ue, a);
            let tail = us + before.user@ + ue + a;
            let turn = us + msg@ + ue;
            &&& tail.len() <= p.len()
            &&& spec_assemble(after, ss, se, us, ue, a) == p.take(p.len() - tail.len()) + turn + tail
        }),
{
    let head = ss + before.system@ + se;
    let old_texts = history_texts(before.history@);
    let new_texts = history_texts(after.history@);
    assert(new_texts.drop_last() =~= old_texts);
    assert(new_texts.last() == msg@);
    let mid = history_turns(old_texts, us, ue);
    let p = spec_assemble(before, ss, se, us, ue, a);
    let tail = us + before.user@ + ue + a;
    let turn = us + msg@ + ue;
    assert(p =~= head + mid + tail);
    assert(p.take(p.len() - tail.len()) =~= head + mid);
    assert(history_turns(new_texts, us, ue) == mid + us + msg@ + ue);
    assert(spec_assemble(after, ss, se, us, ue, a) =~= head + mid + turn + tail);
}

/// The total length of a list of messages.
pub open spec fn total_len(msgs: Seq<Seq<char>>) -> nat
    decreases msgs.len(),
{
    if msgs.len() == 0 {
        0
    } else {
        total_len(msgs.drop_last()) + msgs.last().len()
    }
}

/// The history turns take, per message, the message and the two user markers.
pub proof fn lemma_history_turns_len(history: Seq<Seq<char>>, us: Seq<char>, ue: Seq<char>)
    ensures
        history_turns(history, us, ue).len() == history.len() * (us.len() + ue.len()) + total_len(history),
    decreases history.len(),
{
    if history.len() > 0 {
        lemma_history_turns_len(history.drop_last(), us, ue);
        let n = history.len() as int;
        let k = (us.len() + ue.len()) as int;
        assert((n - 1) * k + k == n * k) by (nonlinear_arith);
    }
}

/// With no history, the prompt is exactly the system message between the
/// system markers, the user message between the user markers and the
/// assistant marker, with nothing in between.
pub proof fn lemma_prompt_without_history(
    ctx: PromptContext,
    ss: Seq<char>,
    se: Seq<char>,
    us: Seq<char>,
    ue: Seq<char>,
    a: Seq<char>,
)
    requires
        ctx.history@.len() == 0,
    ensures
        spec_assemble(ctx, ss, se, us, ue, a) == ss + ctx.system@ + se + us + ctx.user@ + ue + a,
{
    assert(history_texts(ctx.history@).len() == 0);
    assert(spec_assemble(ctx, ss, se, us, ue, a) =~= ss + ctx.system@ + se + us + ctx.user@ + ue + a);
}

/// The prompt holds its parts and nothing else: its length is that of the
/// system block, one user turn (markers and message) per history message, the
/// user turn and the assistant marker.
pub proof fn lemma_prompt_length(
    ctx: PromptContext,
    ss: Seq<char>,
    se: Seq<char>,
    us: Seq<char>,
    ue: Seq<char>,
    a: Seq<char>,
)
    ensures
        spec_assemble(ctx, ss, se, us, ue, a).len() == ss.len() + ctx.system@.len() + se.len()
            + ctx.history@.len() * (us.len() + ue.len()) + total_len(history_texts(ctx.history@))
            + us.len() + ctx.user@.len() + ue.len() + a.len(),
{
    lemma_history_turns_len(history_texts(ctx.history@), us, ue);
}

} // verus!
