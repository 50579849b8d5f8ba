//! The description of one child-process invocation, and the token grammar of
//! the flags that go into it.

use vstd::prelude::*;
use vstd::string::*;

verus! {

/// How one of a child's standard streams is wired.
#[derive(Clone, Copy, Debug, PartialEq, Eq, Structural)]
pub enum Stream {
    /// The child shares this process's stream.
    Inherit,
    /// The stream is discarded.
    Null,
}

/// Everything needed to start a child process: the program, the ordered
/// tokens handed to it as arguments, and the wiring of its three streams.
#[derive(Debug, PartialEq, Eq)]
pub struct ToolInvocation {
    pub program: String,
    pub tokens: Vec<String>,
    pub stdin: Stream,
    pub stdout: Stream,
    pub stderr: Stream,
}

/// The mathematical model of a [`ToolInvocation`].
pub struct ToolInvocationView {
    pub program: Seq<char>,
    pub tokens: Seq<Seq<char>>,
    pub stdin: Stream,
    pub stdout: Stream,
    pub stderr: Stream,
}

impl ToolInvocationView {
    /// An invocation of `program` with no tokens and all streams inherited.
    pub open spec fn bare(program: Seq<char>) -> ToolInvocationView {
        ToolInvocationView {
            program,
            tokens: Seq::empty(),
            stdin: Stream::Inherit,
            stdout: Stream::Inherit,
            stderr: Stream::Inherit,
        }
    }

    /// The same invocation with `more` appended to its tokens.
    pub open spec fn extended(self, more: Seq<Seq<char>>) -> ToolInvocationView {
        ToolInvocationView { tokens: self.tokens + more, ..self }
    }

    /// Whether the child shares all three streams with this process.
    pub open spec fn transparent(self) -> bool {
        &&& self.stdin == Stream::Inherit
        &&& self.stdout == Stream::Inherit
        &&& self.stderr == Stream::Inherit
    }
}

impl View for ToolInvocation {
    type V = ToolInvocationView;

    open spec fn view(&self) -> ToolInvocationView {
        ToolInvocationView {
            program: self.program@,
            tokens: self.tokens.deep_view(),
            stdin: self.stdin,
            stdout: self.stdout,
            stderr: self.stderr,
        }
    }
}

/// A flag with a value: the flag's name, which ends in `=`, directly
/// followed by the value.
pub open spec fn flag(name: Seq<char>, value: Seq<char>) -> Seq<char> {
    name + value
}

/// The tokens of an optional valued flag: one token when the value is
/// present, none otherwise.
pub open spec fn optional_flag(name: Seq<char>, value: Option<Seq<char>>) -> Seq<Seq<char>> {
    match value {
        Some(v) => seq![flag(name, v)],
        None => Seq::empty(),
    }
}

/// The tokens of a boolean switch: the bare name when set, none otherwise.
pub open spec fn switch(name: Seq<char>, on: bool) -> Seq<Seq<char>> {
    if on {
        seq![name]
    } else {
        Seq::empty()
    }
}

/// The tokens of a repeatable valued flag: one token per value, in the
/// order of the values.
pub open spec fn repeated_flag(name: Seq<char>, values: Seq<Seq<char>>) -> Seq<Seq<char>> {
    Seq::new(values.len(), |i: int| flag(name, values[i]))
}

/// The tokens of a repeatable valued flag that may be absent as a whole.
pub open spec fn optional_repeated_flag(
    name: Seq<char>,
    values: Option<Seq<Seq<char>>>,
) -> Seq<Seq<char>> {
    match values {
        Some(v) => repeated_flag(name, v),
        None => Seq::empty(),
    }
}

/// The tokens of an optional positional argument.
pub open spec fn optional_token(value: Option<Seq<char>>) -> Seq<Seq<char>> {
    match value {
        Some(v) => seq![v],
        None => Seq::empty(),
    }
}

/// Appending in two steps is appending the concatenation.
pub proof fn lemma_extended_twice(v: ToolInvocationView, a: Seq<Seq<char>>, b: Seq<Seq<char>>)
    ensures
        v.extended(a).extended(b) == v.extended(a + b),
{
    assert((v.tokens + a) + b =~= v.tokens + (a + b));
}

/// Builds the token of a valued flag.
pub fn flag_token(name: &str, value: &str) -> (token: String)
    ensures
        token@ == flag(name@, value@),
{
    let mut token = String::from_str(name);
    token.append(value);
    token
}

/// A copy of `tokens`, element by element.
pub fn copy_tokens(tokens: &Vec<String>) -> (copy: Vec<String>)
    ensures
        copy.deep_view() == tokens.deep_view(),
{
    let mut copy: Vec<String> = Vec::new();
    let mut i: usize = 0;
    while i < tokens.len()
        invariant
            i <= tokens.len(),
            copy.deep_view() == tokens.deep_view().take(i as int),
        decreases tokens.len() - i,
    {
        let ghost before = copy.deep_view();
        copy.push(tokens[i].clone());
        assert(copy.deep_view() =~= before.push(tokens[i as int]@));
        assert(tokens.deep_view().take(i + 1) =~= tokens.deep_view().take(i as int).push(
            tokens[i as int]@,
        ));
        i += 1;
    }
    assert(tokens.deep_view().take(i as int) =~= tokens.deep_view());
    copy
}

impl ToolInvocation {
    /// An invocation of `program` with no tokens yet, sharing all three
    /// streams with this process.
    pub fn new(program: &str) -> (cmd: ToolInvocation)
        ensures
            cmd@ == ToolInvocationView::bare(program@),
    {
        let cmd = ToolInvocation {
            program: String::from_str(program),
            tokens: Vec::new(),
            stdin: Stream::Inherit,
            stdout: Stream::Inherit,
            stderr: Stream::Inherit,
        };
        assert(cmd@.tokens =~= Seq::empty());
        cmd
    }

    /// Appends one token.
    pub fn arg(&mut self, token: &str)
        ensures
            final(self)@ == old(self)@.extended(seq![token@]),
    {
        self.tokens.push(String::from_str(token));
        assert(self@.tokens =~= old(self)@.tokens + seq![token@]);
    }

    /// Appends every token of `tokens`, in order.
    pub fn args(&mut self, tokens: &Vec<String>)
        ensures
            final(self)@ == old(self)@.extended(tokens.deep_view()),
    {
        let mut i: usize = 0;
        while i < tokens.len()
            invariant
                i <= tokens.len(),
                self@ == old(self)@.extended(tokens.deep_view().take(i as int)),
            decreases tokens.len() - i,
        {
            let ghost before = self@.tokens;
            self.tokens.push(tokens[i].clone());
            assert(self@.tokens =~= before.push(tokens[i as int]@));
            assert(tokens.deep_view().take(i + 1) =~= tokens.deep_view().take(i as int).push(
                tokens[i as int]@,
            ));
            i += 1;
        }
        assert(tokens.deep_view().take(i as int) =~= tokens.deep_view());
    }

    /// Appends a valued flag.
    pub fn flag(&mut self, name: &str, value: &str)
        ensures
            final(self)@ == old(self)@.extended(seq![flag(name@, value@)]),
    {
        self.tokens.push(flag_token(name, value));
        assert(self@.tokens =~= old(self)@.tokens + seq![flag(name@, value@)]);
    }

    /// Appends a valued flag when its value is present.
    pub fn optional_flag(&mut self, name: &str, value: &Option<String>)
        ensures
            final(self)@ == old(self)@.extended(optional_flag(name@, value.deep_view())),
    {
        match value {
            Some(v) => {
                self.tokens.push(flag_token(name, v.as_str()));
                assert(self@.tokens =~= old(self)@.tokens + seq![flag(name@, v@)]);
            },
            None => {
                assert(self@.tokens =~= old(self)@.tokens + Seq::<Seq<char>>::empty());
            },
        }
    }

    /// Appends a bare switch when it is set.
    pub fn switch(&mut self, name: &str, on: bool)
        ensures
            final(self)@ == old(self)@.extended(switch(name@, on)),
    {
        if on {
            self.tokens.push(String::from_str(name));
            assert(self@.tokens =~= old(self)@.tokens + seq![name@]);
        } else {
            assert(self@.tokens =~= old(self)@.tokens + Seq::<Seq<char>>::empty());
        }
    }

    /// Appends one valued flag per element of `values`, in order.
    pub fn repeated_flag(&mut self, name: &str, values: &Vec<String>)
        ensures
            final(self)@ == old(self)@.extended(repeated_flag(name@, values.deep_view())),
    {
        let mut i: usize = 0;
        while i < values.len()
            invariant
                i <= values.len(),
                self@ == old(self)@.extended(
                    repeated_flag(name@, values.deep_view().take(i as int)),
                ),
            decreases values.len() - i,
        {
            let ghost before = self@.tokens;
            self.tokens.push(flag_token(name, values[i].as_str()));
            assert(self@.tokens =~= before.push(flag(name@, values[i as int]@)));
            assert(repeated_flag(name@, values.deep_view().take(i + 1)) =~= repeated_flag(
                name@,
                values.deep_view().take(i as int),
            ).push(flag(name@, values[i as int]@)));
            i += 1;
        }
        assert(values.deep_view().take(i as int) =~= values.deep_view());
    }

    /// Appends one valued flag per element of `values` when the list is
    /// present.
    pub fn optional_repeated_flag(&mut self, name: &str, values: &Option<Vec<String>>)
        ensures
            final(self)@ == old(self)@.extended(
                optional_repeated_flag(name@, values.deep_view()),
            ),
    {
        match values {
            Some(v) => {
                self.repeated_flag(name, v);
            },
            None => {
                assert(self@.tokens =~= old(self)@.tokens + Seq::<Seq<char>>::empty());
            },
        }
    }

    /// Appends a positional token when it is present.
    pub fn optional_token(&mut self, value: &Option<String>)
        ensures
            final(self)@ == old(self)@.extended(optional_token(value.deep_view())),
    {
        match value {
            Some(v) => {
                self.tokens.push(v.clone());
                assert(self@.tokens =~= old(self)@.tokens + seq![v@]);
            },
            None => {
                assert(self@.tokens =~= old(self)@.tokens + Seq::<Seq<char>>::empty());
            },
        }
    }

    /// The tokens gathered so far, in order.
    pub fn get_args(&self) -> (tokens: Vec<String>)
        ensures
            tokens.deep_view() == self@.tokens,
    {
        copy_tokens(&self.tokens)
    }
}

} // verus!
