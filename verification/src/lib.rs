use vstd::prelude::*;

verus! {

/// The execution context handed to the `greet` instruction. It carries no
/// accounts and no arguments; its only invariant is that it is empty, which
/// the type enforces by having no fields.
pub struct Initialize {}

impl Initialize {
    /// An execution context is well formed when it is empty; with no fields
    /// that always holds.
    pub open spec fn wf(self) -> bool {
        true
    }

    /// Builds the empty execution context.
    pub fn new() -> (ctx: Initialize)
        ensures
            ctx.wf(),
    {
        Initialize {}
    }
}

/// The log stream of the invoking environment, modelled as the sequence of
/// lines written so far. Its view is that sequence, each line a sequence of
/// characters.
pub struct Log {
    lines: Vec<String>,
}

impl View for Log {
    type V = Seq<Seq<char>>;

    closed spec fn view(&self) -> Seq<Seq<char>> {
        self.lines@.map_values(|line: String| line@)
    }
}

impl Log {
    /// Builds a log stream with no lines written yet.
    pub fn new() -> (log: Log)
        ensures
            log@ == Seq::<Seq<char>>::empty(),
    {
        let log = Log { lines: Vec::new() };
        proof {
            assert(log@ =~= Seq::<Seq<char>>::empty());
        }
        log
    }

    /// Writes one line to the log stream: the new contents are the old ones
    /// with exactly that line appended.
    pub fn write(&mut self, line: String)
        ensures
            final(self)@ == old(self)@.push(line@),
    {
        self.lines.push(line);
        proof {
            assert(self@ =~= old(self)@.push(line@));
        }
    }

    /// The number of lines written so far.
    pub fn len(&self) -> (n: usize)
        ensures
            n == self@.len(),
    {
        self.lines.len()
    }

    /// The line at position `i`, counted from the first line written.
    pub fn line(&self, i: usize) -> (s: &str)
        requires
            i < self@.len(),
        ensures
            s@ == self@[i as int],
    {
        self.lines[i].as_str()
    }
}

/// The fixed diagnostic message that the `greet` instruction writes to the
/// log stream of the invoking environment.
pub open spec fn greeting() -> Seq<char> {
    "GM!"@
}

/// Returns the fixed greeting line, exactly the text `"GM!"`.
pub fn greeting_line() -> (s: String)
    ensures
        s@ == greeting(),
{
    "GM!".to_owned()
}

/// The one instruction of the program. Given an empty execution context it
/// unconditionally succeeds; its only effect is to write the single line
/// `"GM!"` to the log stream, which otherwise keeps exactly the lines it
/// already had. The error type is `()` and no value of it is ever returned:
/// the instruction has no failure path.
pub fn greet(ctx: &Initialize, log: &mut Log) -> (r: Result<(), ()>)
    requires
        ctx.wf(),
    ensures
        r is Ok,
        final(log)@ == old(log)@.push(greeting()),
{
    let line = greeting_line();
    log.write(line);
    Ok(())
}

/// The log contents after `n` further invocations of `greet`, starting from
/// a log that holds `lines`; each invocation appends the greeting, as the
/// contract of `greet` states.
pub open spec fn after_greets(lines: Seq<Seq<char>>, n: nat) -> Seq<Seq<char>>
    decreases n,
{
    if n == 0 {
        lines
    } else {
        after_greets(lines, (n - 1) as nat).push(greeting())
    }
}

/// Law: repeated invocations of `greet` are independent. After `n` calls on
/// any log, the lines already present are unchanged, exactly `n` lines were
/// added, and every added line equals the greeting; no state is shared
/// between the calls, so no call can observe or disturb another.
pub proof fn lemma_greet_repeated(lines: Seq<Seq<char>>, n: nat)
    ensures
        after_greets(lines, n).len() == lines.len() + n,
        forall|i: int| 0 <= i < lines.len() ==> after_greets(lines, n)[i] == lines[i],
        forall|i: int|
            lines.len() <= i < lines.len() + n ==> after_greets(lines, n)[i] == greeting(),
    decreases n,
{
    if n > 0 {
        lemma_greet_repeated(lines, (n - 1) as nat);
    }
}

} // verus!
