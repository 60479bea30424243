//! Reassembles one assistant message from the deltas of a streamed answer.
use vstd::prelude::*;
use vstd::string::StringExecFns;

use crate::completions;

verus! {

/// The assistant message once the stream is over.
pub struct AssistantMessage {
    pub content: Option<String>,
    pub tool_calls: Vec<ToolCall>,
}

/// A tool call being assembled: its arguments arrive in pieces.
pub struct ToolCall {
    pub id: String,
    pub index: usize,
    pub type_: String,
    pub function: String,
    pub arguments: String,
}

/// Mathematical value of a [`ToolCall`].
pub struct ToolCallView {
    pub id: Seq<char>,
    pub index: usize,
    pub type_: Seq<char>,
    pub function: Seq<char>,
    pub arguments: Seq<char>,
}

impl View for ToolCall {
    type V = ToolCallView;

    open spec fn view(&self) -> ToolCallView {
        ToolCallView {
            id: self.id@,
            index: self.index,
            type_: self.type_@,
            function: self.function@,
            arguments: self.arguments@,
        }
    }
}

/// The values of a sequence of tool calls.
pub open spec fn calls_view(calls: Seq<ToolCall>) -> Seq<ToolCallView> {
    calls.map_values(|c: ToolCall| c@)
}

/// The value of an optional string.
pub open spec fn opt_view(o: Option<String>) -> Option<Seq<char>> {
    match o {
        Some(s) => Some(s@),
        None => None,
    }
}

/// Mathematical value of an [`Assembler`] and of an [`AssistantMessage`].
pub struct AssemblerView {
    pub content: Option<Seq<char>>,
    pub tool_calls: Seq<ToolCallView>,
}

impl View for AssistantMessage {
    type V = AssemblerView;

    open spec fn view(&self) -> AssemblerView {
        AssemblerView { content: opt_view(self.content), tool_calls: calls_view(self.tool_calls@) }
    }
}

/// A delta that opens a new tool call: it carries an id, a function name and a type.
pub open spec fn opens_call(d: completions::ToolCall) -> bool {
    &&& d.id is Some
    &&& d.function.name is Some
    &&& d.type_ is Some
}

/// The arguments a delta carries, the empty sequence when it carries none.
pub open spec fn delta_arguments(d: completions::ToolCall) -> Seq<char> {
    match d.function.arguments {
        Some(a) => a@,
        None => Seq::empty(),
    }
}

/// The tool call that an opening delta starts.
pub open spec fn opened_call(d: completions::ToolCall) -> ToolCallView {
    ToolCallView {
        id: d.id.unwrap()@,
        index: d.index,
        type_: d.type_.unwrap()@,
        function: d.function.name.unwrap()@,
        arguments: delta_arguments(d),
    }
}

/// `call` with `more` appended to its arguments.
pub open spec fn extend_arguments(call: ToolCallView, more: Seq<char>) -> ToolCallView {
    ToolCallView {
        id: call.id,
        index: call.index,
        type_: call.type_,
        function: call.function,
        arguments: call.arguments + more,
    }
}

/// The tool calls after the tool-call deltas of one chunk, taken in order.
/// An opening delta appends a new call. Any other delta addresses the call at its
/// index: out of range, the rest of the chunk is dropped; with arguments, they are
/// appended and the rest of the chunk is dropped; without, the next delta is taken.
pub open spec fn apply_call_deltas(
    calls: Seq<ToolCallView>,
    deltas: Seq<completions::ToolCall>,
) -> Seq<ToolCallView>
    decreases deltas.len(),
{
    if deltas.len() == 0 {
        calls
    } else {
        let d = deltas[0];
        if opens_call(d) {
            apply_call_deltas(calls.push(opened_call(d)), deltas.drop_first())
        } else if d.index >= calls.len() {
            calls
        } else if d.function.arguments is Some {
            calls.update(d.index as int, extend_arguments(calls[d.index as int], delta_arguments(d)))
        } else {
            apply_call_deltas(calls, deltas.drop_first())
        }
    }
}

/// Whether a non-opening delta with the largest index is reached while the
/// tool-call deltas are taken in order (its successor index does not fit in `usize`).
pub open spec fn call_index_overflows(calls_len: nat, deltas: Seq<completions::ToolCall>) -> bool
    decreases deltas.len(),
{
    if deltas.len() == 0 {
        false
    } else {
        let d = deltas[0];
        if opens_call(d) {
            call_index_overflows(calls_len + 1, deltas.drop_first())
        } else if d.index == usize::MAX {
            true
        } else if d.index >= calls_len {
            false
        } else if d.function.arguments is Some {
            false
        } else {
            call_index_overflows(calls_len, deltas.drop_first())
        }
    }
}

/// The first non-opening delta reached, while the tool-call deltas are taken in order,
/// whose index is out of range: its index and the number of calls at that point.
pub open spec fn call_out_of_range(calls_len: nat, deltas: Seq<completions::ToolCall>) -> Option<
    (usize, nat),
>
    decreases deltas.len(),
{
    if deltas.len() == 0 {
        None
    } else {
        let d = deltas[0];
        if opens_call(d) {
            call_out_of_range(calls_len + 1, deltas.drop_first())
        } else if d.index >= calls_len {
            Some((d.index, calls_len))
        } else if d.function.arguments is Some {
            None
        } else {
            call_out_of_range(calls_len, deltas.drop_first())
        }
    }
}

/// The state after one delta message.
/// Content is appended to the content gathered so far; when there was some, the
/// tool calls of that delta are ignored. Otherwise the tool-call deltas are applied.
pub open spec fn apply_delta(a: AssemblerView, delta: completions::Message) -> AssemblerView {
    if delta.content is Some && a.content is Some {
        AssemblerView {
            content: Some(a.content.unwrap() + delta.content.unwrap()@),
            tool_calls: a.tool_calls,
        }
    } else {
        AssemblerView {
            content: if delta.content is Some {
                Some(delta.content.unwrap()@)
            } else {
                a.content
            },
            tool_calls: match delta.tool_calls {
                Some(tcs) => apply_call_deltas(a.tool_calls, tcs@),
                None => a.tool_calls,
            },
        }
    }
}

/// Whether applying `delta` to `a` reaches a tool-call delta whose index overflows.
pub open spec fn delta_overflows(a: AssemblerView, delta: completions::Message) -> bool {
    if delta.content is Some && a.content is Some {
        false
    } else {
        match delta.tool_calls {
            Some(tcs) => call_index_overflows(a.tool_calls.len(), tcs@),
            None => false,
        }
    }
}

/// The tool-call delta of `delta` that applying it to `a` drops as out of range, with the
/// number of calls at that point.
pub open spec fn delta_out_of_range_at(a: AssemblerView, delta: completions::Message) -> Option<
    (usize, nat),
> {
    if delta.content is Some && a.content is Some {
        None
    } else {
        match delta.tool_calls {
            Some(tcs) => call_out_of_range(a.tool_calls.len(), tcs@),
            None => None,
        }
    }
}

impl ToolCall {
    /// A new tool call with no arguments yet.
    pub fn new(id: &str, index: usize, type_: &str, function: &str) -> (res: Self)
        ensures
            res@ == (ToolCallView {
                id: id@,
                index,
                type_: type_@,
                function: function@,
                arguments: Seq::empty(),
            }),
    {
        Self {
            id: String::from_str(id),
            index,
            type_: String::from_str(type_),
            function: String::from_str(function),
            arguments: String::new(),
        }
    }

    /// Appends a piece of the arguments.
    pub fn push_arguments(&mut self, arguments: &str)
        ensures
            final(self)@ == extend_arguments(old(self)@, arguments@),
    {
        self.arguments.append(arguments);
    }
}

/// Gathers the content and tool calls of a streamed answer.
pub struct Assembler {
    content: Option<String>,
    tool_calls: Vec<ToolCall>,
}

impl View for Assembler {
    type V = AssemblerView;

    closed spec fn view(&self) -> AssemblerView {
        AssemblerView { content: opt_view(self.content), tool_calls: calls_view(self.tool_calls@) }
    }
}

impl Default for Assembler {
    fn default() -> (res: Self)
        ensures
            res@ == (AssemblerView { content: None, tool_calls: Seq::empty() }),
    {
        let res = Assembler { content: None, tool_calls: Vec::new() };
        assert(calls_view(res.tool_calls@) =~= Seq::empty());
        res
    }
}

impl Assembler {
    /// Takes the delta of the first choice of `answer`.
    pub fn push_delta(&mut self, answer: &completions::Answer)
        requires
            answer.choices@.len() > 0,
            !delta_overflows(old(self)@, answer.choices@[0].delta),
        ensures
            final(self)@ == apply_delta(old(self)@, answer.choices@[0].delta),
    {
        let choice = &answer.choices[0];
        let delta = &choice.delta;

        if let Some(content) = &delta.content {
            match &mut self.content {
                Some(a_content) => {
                    a_content.append(content.as_str());
                    return;
                },
                None => {
                    self.content = Some(content.clone());
                },
            }
        }
        if let Some(tool_calls) = &delta.tool_calls {
            let ghost start = calls_view(self.tool_calls@);
            assert(tool_calls@.skip(0) =~= tool_calls@);
            assert(start == old(self)@.tool_calls);
            assert(apply_delta(old(self)@, *delta).tool_calls == apply_call_deltas(start, tool_calls@));
            let n = tool_calls.len();
            let mut i: usize = 0;
            while i < n
                invariant
                    n == tool_calls@.len(),
                    0 <= i <= n,
                    apply_call_deltas(calls_view(self.tool_calls@), tool_calls@.skip(i as int))
                        == apply_call_deltas(start, tool_calls@),
                    !call_index_overflows(self.tool_calls@.len() as nat, tool_calls@.skip(i as int)),
                    opt_view(self.content) == apply_delta(old(self)@, *delta).content,
                    apply_delta(old(self)@, *delta).tool_calls == apply_call_deltas(start, tool_calls@),
                    *delta == answer.choices@[0].delta,
                decreases n - i,
            {
                let tc = &tool_calls[i];
                let ghost rest = tool_calls@.skip(i as int);
                assert(rest[0] == *tc);
                assert(rest.drop_first() =~= tool_calls@.skip(i + 1));
                if tc.id.is_some() && tc.function.name.is_some() && tc.type_.is_some() {
                    let id = tc.id.as_ref().unwrap();
                    let name = tc.function.name.as_ref().unwrap();
                    let type_ = tc.type_.as_ref().unwrap();
                    let mut call = ToolCall::new(id.as_str(), tc.index, type_.as_str(), name.as_str());
                    if let Some(arguments) = &tc.function.arguments {
                        call.push_arguments(arguments.as_str());
                    }
                    let ghost before = self.tool_calls@;
                    self.tool_calls.push(call);
                    assert(calls_view(self.tool_calls@) =~= calls_view(before).push(call@));
                } else {
                    if tc.index >= self.tool_calls.len() {
                        return;
                    }
                    if let Some(arguments) = &tc.function.arguments {
                        let ghost before = self.tool_calls@;
                        self.tool_calls[tc.index].push_arguments(arguments.as_str());
                        assert(calls_view(self.tool_calls@) =~= calls_view(before).update(
                            tc.index as int,
                            extend_arguments(calls_view(before)[tc.index as int], arguments@),
                        ));
                        return;
                    }
                }
                i = i + 1;
            }
            assert(tool_calls@.skip(n as int) =~= Seq::<completions::ToolCall>::empty());
        }
    }

    /// The assembled message.
    pub fn assemble(self) -> (res: AssistantMessage)
        ensures
            res@ == self@,
    {
        AssistantMessage { content: self.content, tool_calls: self.tool_calls }
    }
}

} // verus!

verus! {

/// The state after a sequence of delta messages, taken in order.
pub open spec fn apply_deltas(a: AssemblerView, ds: Seq<completions::Message>) -> AssemblerView
    decreases ds.len(),
{
    if ds.len() == 0 {
        a
    } else {
        apply_delta(apply_deltas(a, ds.drop_last()), ds.last())
    }
}

/// The content texts of a sequence of delta messages, concatenated.
pub open spec fn streamed_text(ds: Seq<completions::Message>) -> Seq<char>
    decreases ds.len(),
{
    if ds.len() == 0 {
        Seq::empty()
    } else {
        streamed_text(ds.drop_last()) + match ds.last().content {
            Some(c) => c@,
            None => Seq::empty(),
        }
    }
}

/// Text streamed in pieces is reassembled in order: after deltas that each carry content
/// and no tool calls, the content is what was there followed by the pieces, and the tool
/// calls are untouched.
pub proof fn lemma_content_reassembled(a: AssemblerView, ds: Seq<completions::Message>)
    requires
        ds.len() > 0,
        forall|i: int| 0 <= i < ds.len() ==> (#[trigger] ds[i]).content is Some && ds[i].tool_calls is None,
    ensures
        apply_deltas(a, ds).content == Some(
            match a.content {
                Some(c) => c,
                None => Seq::<char>::empty(),
            } + streamed_text(ds),
        ),
        apply_deltas(a, ds).tool_calls == a.tool_calls,
    decreases ds.len(),
{
    let prefix = match a.content {
        Some(c) => c,
        None => Seq::<char>::empty(),
    };
    let init = ds.drop_last();
    assert forall|i: int| 0 <= i < init.len() implies (#[trigger] init[i]).content is Some
        && init[i].tool_calls is None by {
        assert(init[i] == ds[i]);
    }
    assert(ds.last() == ds[ds.len() - 1]);
    if init.len() == 0 {
        assert(streamed_text(init) =~= Seq::<char>::empty());
        assert(prefix + streamed_text(ds) =~= prefix + ds.last().content.unwrap()@);
        if a.content is None {
            assert(prefix + streamed_text(ds) =~= ds.last().content.unwrap()@);
        }
    } else {
        lemma_content_reassembled(a, init);
        assert(prefix + streamed_text(ds) =~= (prefix + streamed_text(init))
            + ds.last().content.unwrap()@);
    }
}

/// Whether `b` keeps every tool call of `a`: same id, index, type and function, and the
/// arguments of `a` as a prefix of its own.
pub open spec fn keeps_calls(a: Seq<ToolCallView>, b: Seq<ToolCallView>) -> bool {
    &&& a.len() <= b.len()
    &&& forall|i: int|
        0 <= i < a.len() ==> {
            &&& (#[trigger] b[i]).id == a[i].id
            &&& b[i].index == a[i].index
            &&& b[i].type_ == a[i].type_
            &&& b[i].function == a[i].function
            &&& a[i].arguments.is_prefix_of(b[i].arguments)
        }
}

proof fn lemma_keeps_calls_trans(a: Seq<ToolCallView>, b: Seq<ToolCallView>, c: Seq<ToolCallView>)
    requires
        keeps_calls(a, b),
        keeps_calls(b, c),
    ensures
        keeps_calls(a, c),
{
    assert forall|i: int| 0 <= i < a.len() implies {
        &&& (#[trigger] c[i]).id == a[i].id
        &&& c[i].index == a[i].index
        &&& c[i].type_ == a[i].type_
        &&& c[i].function == a[i].function
        &&& a[i].arguments.is_prefix_of(c[i].arguments)
    } by {
        let x = a[i].arguments;
        let y = b[i].arguments;
        let z = c[i].arguments;
        assert(b[i] == b[i]);
        assert(x.is_prefix_of(y));
        assert(y.is_prefix_of(z));
        assert(x =~= z.subrange(0, x.len() as int)) by {
            assert forall|k: int| 0 <= k < x.len() implies x[k] == z.subrange(0, x.len() as int)[k] by {
                assert(x[k] == y.subrange(0, x.len() as int)[k]);
                assert(y[k] == z.subrange(0, y.len() as int)[k]);
            }
        }
    }
}

proof fn lemma_keeps_self(a: Seq<ToolCallView>)
    ensures
        keeps_calls(a, a),
{
    assert forall|i: int| 0 <= i < a.len() implies (#[trigger] a[i]).arguments.is_prefix_of(
        a[i].arguments,
    ) by {
        assert(a[i].arguments =~= a[i].arguments.subrange(0, a[i].arguments.len() as int));
    }
}

proof fn lemma_call_deltas_keep(calls: Seq<ToolCallView>, deltas: Seq<completions::ToolCall>)
    ensures
        keeps_calls(calls, apply_call_deltas(calls, deltas)),
    decreases deltas.len(),
{
    let r = apply_call_deltas(calls, deltas);
    if deltas.len() == 0 {
        lemma_keeps_self(calls);
    } else {
        let d = deltas[0];
        if opens_call(d) {
            let pushed = calls.push(opened_call(d));
            lemma_call_deltas_keep(pushed, deltas.drop_first());
            lemma_keeps_self(calls);
            assert(keeps_calls(calls, pushed)) by {
                assert forall|i: int| 0 <= i < calls.len() implies #[trigger] pushed[i] == calls[i] by {}
            }
            lemma_keeps_calls_trans(calls, pushed, r);
        } else if d.index >= calls.len() {
            lemma_keeps_self(calls);
        } else if d.function.arguments is Some {
            lemma_keeps_self(calls);
            let j = d.index as int;
            assert forall|i: int| 0 <= i < calls.len() implies calls[i].arguments.is_prefix_of(
                (#[trigger] r[i]).arguments,
            ) by {
                if i == j {
                    assert(calls[i].arguments =~= r[i].arguments.subrange(
                        0,
                        calls[i].arguments.len() as int,
                    ));
                } else {
                    assert(r[i] == calls[i]);
                }
            }
        } else {
            lemma_call_deltas_keep(calls, deltas.drop_first());
        }
    }
}

/// Tool calls are never lost: a delta only appends calls or extends the arguments of a
/// call, and never changes a call's id, index, type or function.
pub proof fn lemma_delta_keeps_calls(a: AssemblerView, delta: completions::Message)
    ensures
        keeps_calls(a.tool_calls, apply_delta(a, delta).tool_calls),
{
    if delta.content is Some && a.content is Some {
        lemma_keeps_self(a.tool_calls);
    } else {
        match delta.tool_calls {
            Some(tcs) => lemma_call_deltas_keep(a.tool_calls, tcs@),
            None => lemma_keeps_self(a.tool_calls),
        }
    }
}

} // verus!

verus! {

fn call_deltas_overflow(calls_len: usize, deltas: &[completions::ToolCall]) -> (res: bool)
    ensures
        res == call_index_overflows(calls_len as nat, deltas@),
{
    let n = deltas.len();
    let mut opened: usize = 0;
    let mut i: usize = 0;
    assert(deltas@.skip(0) =~= deltas@);
    while i < n
        invariant
            n == deltas@.len(),
            i <= n,
            opened <= i,
            call_index_overflows(calls_len as nat, deltas@) == call_index_overflows(
                calls_len as nat + opened as nat,
                deltas@.skip(i as int),
            ),
        decreases n - i,
    {
        let d = &deltas[i];
        proof {
            let rest = deltas@.skip(i as int);
            assert(rest[0] == *d);
            assert(rest.drop_first() =~= deltas@.skip(i + 1));
        }
        if d.id.is_some() && d.function.name.is_some() && d.type_.is_some() {
            opened = opened + 1;
        } else if d.index == usize::MAX {
            return true;
        } else if d.index >= calls_len && d.index - calls_len >= opened {
            return false;
        } else if d.function.arguments.is_some() {
            return false;
        }
        i = i + 1;
    }
    assert(deltas@.skip(n as int) =~= Seq::<completions::ToolCall>::empty());
    false
}

fn call_deltas_out_of_range(calls_len: usize, deltas: &[completions::ToolCall]) -> (res: Option<
    (usize, usize),
>)
    ensures
        match res {
            None => call_out_of_range(calls_len as nat, deltas@) is None,
            Some((i, l)) => call_out_of_range(calls_len as nat, deltas@) == Some((i, l as nat)),
        },
{
    let n = deltas.len();
    let mut opened: usize = 0;
    let mut i: usize = 0;
    assert(deltas@.skip(0) =~= deltas@);
    while i < n
        invariant
            n == deltas@.len(),
            i <= n,
            opened <= i,
            call_out_of_range(calls_len as nat, deltas@) == call_out_of_range(
                calls_len as nat + opened as nat,
                deltas@.skip(i as int),
            ),
        decreases n - i,
    {
        let d = &deltas[i];
        proof {
            let rest = deltas@.skip(i as int);
            assert(rest[0] == *d);
            assert(rest.drop_first() =~= deltas@.skip(i + 1));
        }
        if d.id.is_some() && d.function.name.is_some() && d.type_.is_some() {
            opened = opened + 1;
        } else if d.index >= calls_len && d.index - calls_len >= opened {
            return Some((d.index, calls_len + opened));
        } else if d.function.arguments.is_some() {
            return None;
        }
        i = i + 1;
    }
    assert(deltas@.skip(n as int) =~= Seq::<completions::ToolCall>::empty());
    None
}

impl Assembler {
    /// Whether taking `answer` would reach a tool-call delta whose index overflows, the
    /// inputs that [`Assembler::push_delta`] leaves out.
    pub fn delta_overflows_index(&self, answer: &completions::Answer) -> (res: bool)
        ensures
            res == (answer.choices@.len() > 0 && delta_overflows(self@, answer.choices@[0].delta)),
    {
        if answer.choices.len() == 0 {
            return false;
        }
        let delta = &answer.choices[0].delta;
        if delta.content.is_some() && self.content.is_some() {
            return false;
        }
        match &delta.tool_calls {
            Some(tcs) => call_deltas_overflow(self.tool_calls.len(), tcs.as_slice()),
            None => false,
        }
    }

    /// The tool-call delta of `answer` that taking it drops as out of range, if any: its
    /// index and the number of tool calls at that point.
    pub fn delta_out_of_range(&self, answer: &completions::Answer) -> (res: Option<(usize, usize)>)
        requires
            answer.choices@.len() > 0,
        ensures
            match res {
                None => delta_out_of_range_at(self@, answer.choices@[0].delta) is None,
                Some((i, l)) => delta_out_of_range_at(self@, answer.choices@[0].delta) == Some(
                    (i, l as nat),
                ),
            },
    {
        let delta = &answer.choices[0].delta;
        if delta.content.is_some() && self.content.is_some() {
            return None;
        }
        match &delta.tool_calls {
            Some(tcs) => call_deltas_out_of_range(self.tool_calls.len(), tcs.as_slice()),
            None => None,
        }
    }
}

} // verus!
