//! The accumulator that writes instructions at once or queues them until flushed.
//!
//! What is written goes to an in-memory sink, [`BuildScript::output`]; a program hands it on
//! to standard output, where cargo reads it.
use crate::cargo_rustc_link_lib;
use crate::cargo_rustc_link_search;
use crate::instruction::Instruction;
use crate::utils::VecExt;
use crate::value::{spec_pair, spec_quoted_pair, Value};
use vstd::prelude::*;

verus! {

/// A line as it is written: with exactly one terminating newline.
pub open spec fn terminated(line: Seq<char>) -> Seq<char> {
    if line.len() > 0 && line.last() == '\n' {
        line
    } else {
        line.push('\n')
    }
}

/// Lines written one after the other, each terminated.
pub open spec fn lines(texts: Seq<Seq<char>>) -> Seq<char>
    decreases texts.len(),
{
    if texts.len() == 0 {
        Seq::empty()
    } else {
        lines(texts.drop_last()) + terminated(texts.last())
    }
}

/// The line of a directive under the cargo prefix: `cargo:name=value`.
pub open spec fn directive(name: Seq<char>, value: Seq<char>) -> Seq<char> {
    "cargo"@ + seq![':'] + name + seq!['='] + value
}

/// The value text of a directive with an optional kind: `kind=item`, or `item` alone.
pub open spec fn kinded(kind: Option<Seq<char>>, item: Seq<char>) -> Seq<char> {
    match kind {
        Some(k) => spec_pair(k, item),
        None => item,
    }
}

/// A build script. This is the main struct for creating cargo arguments.
pub struct BuildScript {
    /// The instruction stack. If `now` is `true`, nothing is added to it.
    instructions: Vec<Instruction>,
    /// Whether or not instructions are written immediately.
    now: bool,
    /// Everything written so far.
    writer: String,
}

impl BuildScript {
    /// Every queued instruction can be written.
    pub closed spec fn wf(&self) -> bool {
        forall|i: int| 0 <= i < self.instructions@.len() ==> (#[trigger] self.instructions@[i]).wf()
    }

    /// The lines of the queued instructions, first to last, without terminators.
    pub closed spec fn pending(&self) -> Seq<Seq<char>> {
        self.instructions@.map_values(|i: Instruction| i.text())
    }

    /// Whether instructions are written as soon as they are recorded.
    pub closed spec fn immediate(&self) -> bool {
        self.now
    }

    /// The text written so far.
    pub closed spec fn written(&self) -> Seq<char> {
        self.writer@
    }

    /// `self` is `before` after recording an instruction whose line is `line`: written at
    /// once in immediate mode, queued at the tail otherwise.
    pub open spec fn recorded(self, before: BuildScript, line: Seq<char>) -> bool {
        &&& self.wf()
        &&& self.immediate() == before.immediate()
        &&& if before.immediate() {
            &&& self.pending() == before.pending()
            &&& self.written() == before.written() + terminated(line)
        } else {
            &&& self.pending() == before.pending().push(line)
            &&& self.written() == before.written()
        }
    }

    /// `self` is `before` after a flush: every queued line written in order, nothing queued.
    pub open spec fn flushed(self, before: BuildScript) -> bool {
        &&& self.wf()
        &&& self.immediate() == before.immediate()
        &&& self.pending() == Seq::<Seq<char>>::empty()
        &&& self.written() == before.written() + lines(before.pending())
    }

    /// Create a new [`BuildScript`](Self), in deferred mode, with nothing written.
    pub fn new() -> (r: Self)
        ensures
            r.wf(),
            r.pending() == Seq::<Seq<char>>::empty(),
            !r.immediate(),
            r.written() == Seq::<char>::empty(),
    {
        let r = BuildScript { writer: String::new(), instructions: Vec::new(), now: false };
        assert(r.pending() =~= Seq::<Seq<char>>::empty());
        r
    }

    /// Sets `now` to true: from here on instructions are written as soon as they are
    /// recorded. What is queued already stays queued until [`build`](Self::build).
    pub fn now(&mut self) -> (r: &mut Self)
        requires
            old(self).wf(),
        ensures
            r.wf(),
            r.immediate(),
            r.pending() == old(self).pending(),
            r.written() == old(self).written(),
            *final(self) == *final(r),
    {
        self.now = true;
        self
    }

    /// The text written so far.
    pub fn output(&self) -> (r: &str)
        ensures
            r@ == self.written(),
    {
        self.writer.as_str()
    }

    /// Hands out the text written so far and empties the sink.
    pub fn take_output(&mut self) -> (r: String)
        requires
            old(self).wf(),
        ensures
            r@ == old(self).written(),
            final(self).wf(),
            final(self).written() == Seq::<char>::empty(),
            final(self).pending() == old(self).pending(),
            final(self).immediate() == old(self).immediate(),
    {
        let out = self.writer.clone();
        self.writer = String::new();
        out
    }

    /// Write one line to the sink, adding a newline unless it ends in one.
    fn write(&mut self, line: &str)
        ensures
            final(self).writer@ == old(self).writer@ + terminated(line@),
            final(self).instructions == old(self).instructions,
            final(self).now == old(self).now,
    {
        proof {
            reveal_strlit("\n");
        }
        let n = line.unicode_len();
        self.writer.append(line);
        if n > 0 && line.get_char(n - 1) == '\n' {
        } else {
            self.writer.append("\n");
        }
        assert(self.writer@ =~= old(self).writer@ + terminated(line@));
    }

    /// Write the instruction immediately if `now` is true, else push it to the instruction
    /// stack.
    fn parse_instruction(&mut self, instruction: Instruction)
        requires
            old(self).wf(),
            instruction.wf(),
        ensures
            final(self).recorded(*old(self), instruction.text()),
    {
        if self.now {
            let line = instruction.to_string();
            self.write(line.as_str());
        } else {
            self.instructions.push(instruction);
            assert(self.pending() =~= old(self).pending().push(instruction.text()));
        }
    }

    /// Write and remove all the instructions in the stack, starting from the first.
    pub fn build(&mut self)
        requires
            old(self).wf(),
        ensures
            final(self).flushed(*old(self)),
    {
        let ghost queue = old(self).pending();
        let ghost k: int = 0;
        assert(queue.subrange(0, 0) =~= Seq::<Seq<char>>::empty());
        assert(self.pending() =~= queue.subrange(0, queue.len() as int));
        loop
            invariant
                self.wf(),
                self.now == old(self).now,
                0 <= k <= queue.len(),
                self.pending() == queue.subrange(k, queue.len() as int),
                self.written() == old(self).written() + lines(queue.subrange(0, k)),
            ensures
                self.wf(),
                self.now == old(self).now,
                self.pending() == Seq::<Seq<char>>::empty(),
                self.written() == old(self).written() + lines(queue),
            decreases self.instructions@.len(),
        {
            let ghost before = self.instructions@;
            let ghost rest = self.pending();
            assert(rest.len() == before.len());
            match self.instructions.take_first() {
                Some(instruction) => {
                    assert(before[0] == instruction);
                    assert(k < queue.len());
                    assert(rest[0] == queue[k]);
                    assert(self.pending() =~= queue.subrange(k + 1, queue.len() as int)) by {
                        assert forall|i: int| 0 <= i < self.pending().len() implies self.pending()[i]
                            == rest[i + 1] by {
                            assert(self.instructions@[i] == before[i + 1]);
                        }
                    }
                    let line = instruction.to_string();
                    self.write(line.as_str());
                    proof {
                        assert(queue.subrange(0, k + 1).drop_last() =~= queue.subrange(0, k));
                        k = k + 1;
                        assert(self.written() =~= old(self).written() + lines(
                            queue.subrange(0, k),
                        ));
                    }
                },
                None => {
                    assert(k == queue.len());
                    assert(queue.subrange(0, k) =~= queue);
                    assert(self.pending() =~= Seq::<Seq<char>>::empty());
                    break ;
                },
            }
        }
    }

    /// Wrapper for `cargo:rerun-if-changed=PATH`. This tells Cargo when to rerun the script.
    pub fn cargo_rerun_if_changed(&mut self, path: &str) -> (r: &mut Self)
        requires
            old(self).wf(),
        ensures
            r.recorded(*old(self), directive("rerun-if-changed"@, path@)),
            *final(self) == *final(r),
    {
        let instruction = Instruction::new(
            "rerun-if-changed",
            Value::Singular(String::from_str(path)),
        );
        self.custom_instruction(instruction)
    }

    /// Wrapper for `cargo:rerun-if-env-changed=VAR`. This tells Cargo when to rerun the
    /// script.
    pub fn cargo_rerun_if_env_changed(&mut self, var: &str) -> (r: &mut Self)
        requires
            old(self).wf(),
        ensures
            r.recorded(*old(self), directive("rerun-if-env-changed"@, var@)),
            *final(self) == *final(r),
    {
        let instruction = Instruction::new(
            "rerun-if-env-changed",
            Value::Singular(String::from_str(var)),
        );
        self.custom_instruction(instruction)
    }

    /// Wrapper for `cargo:rustc-link-lib=[KIND=]NAME`. This adds a library to link.
    pub fn cargo_rustc_link_lib(
        &mut self,
        kind: Option<cargo_rustc_link_lib::Kind>,
        name: &str,
    ) -> (r: &mut Self)
        requires
            old(self).wf(),
        ensures
            r.recorded(
                *old(self),
                directive(
                    "rustc-link-lib"@,
                    kinded(
                        match kind {
                            Some(k) => Some(k.text()),
                            None => None,
                        },
                        name@,
                    ),
                ),
            ),
            *final(self) == *final(r),
    {
        let label = match kind {
            Some(k) => Some(String::from_str(k.label())),
            None => None,
        };
        let instruction = Instruction::new(
            "rustc-link-lib",
            Value::UnquotedOptionalKey(label, String::from_str(name)),
        );
        self.custom_instruction(instruction)
    }

    /// Wrapper for `cargo:rustc-link-search=[KIND=]PATH`. This adds to the library search
    /// path.
    pub fn cargo_rustc_link_search(
        &mut self,
        kind: Option<cargo_rustc_link_search::Kind>,
        path: &str,
    ) -> (r: &mut Self)
        requires
            old(self).wf(),
        ensures
            r.recorded(
                *old(self),
                directive(
                    "rustc-link-search"@,
                    kinded(
                        match kind {
                            Some(k) => Some(k.text()),
                            None => None,
                        },
                        path@,
                    ),
                ),
            ),
            *final(self) == *final(r),
    {
        let label = match kind {
            Some(k) => Some(String::from_str(k.label())),
            None => None,
        };
        let instruction = Instruction::new(
            "rustc-link-search",
            Value::UnquotedOptionalKey(label, String::from_str(path)),
        );
        self.custom_instruction(instruction)
    }

    /// Wrapper for `cargo:rustc-flags=FLAGS`. This passes certain flags to the compiler.
    pub fn cargo_rustc_flags(&mut self, flags: &str) -> (r: &mut Self)
        requires
            old(self).wf(),
        ensures
            r.recorded(*old(self), directive("rustc-flags"@, flags@)),
            *final(self) == *final(r),
    {
        let instruction = Instruction::new("rustc-flags", Value::Singular(String::from_str(flags)));
        self.custom_instruction(instruction)
    }

    /// Wrapper for `cargo:rustc-cfg=KEY[="VALUE"]`. This enable compile-time `cfg` settings.
    pub fn cargo_rustc_cfg(&mut self, key: &str, value: Option<&str>) -> (r: &mut Self)
        requires
            old(self).wf(),
        ensures
            r.recorded(
                *old(self),
                directive(
                    "rustc-cfg"@,
                    match value {
                        Some(v) => spec_quoted_pair(key@, v@),
                        None => key@,
                    },
                ),
            ),
            *final(self) == *final(r),
    {
        let value = match value {
            Some(v) => Some(String::from_str(v)),
            None => None,
        };
        let instruction = Instruction::new(
            "rustc-cfg",
            Value::OptionalValue(String::from_str(key), value),
        );
        self.custom_instruction(instruction)
    }

    /// Wrapper for `cargo:rustc-env=VAR=VALUE`. This sets an environment variable.
    pub fn cargo_rustc_env(&mut self, var: &str, value: &str) -> (r: &mut Self)
        requires
            old(self).wf(),
        ensures
            r.recorded(*old(self), directive("rustc-env"@, spec_pair(var@, value@))),
            *final(self) == *final(r),
    {
        let instruction = Instruction::new(
            "rustc-env",
            Value::UnquotedMapping(String::from_str(var), String::from_str(value)),
        );
        self.custom_instruction(instruction)
    }

    /// Wrapper for `cargo:rustc-cdylib-link-arg=FLAG`. This passes custom flags to a linker
    /// for cdylib crates.
    pub fn cargo_rustc_cdylib_link_arg(&mut self, flag: &str) -> (r: &mut Self)
        requires
            old(self).wf(),
        ensures
            r.recorded(*old(self), directive("rustc-cdylib-link-arg"@, flag@)),
            *final(self) == *final(r),
    {
        let instruction = Instruction::new(
            "rustc-cdylib-link-arg",
            Value::Singular(String::from_str(flag)),
        );
        self.custom_instruction(instruction)
    }

    /// Wrapper for `cargo:warning=MESSAGE`. This displays a warning on the terminal.
    pub fn cargo_warning(&mut self, message: &str) -> (r: &mut Self)
        requires
            old(self).wf(),
        ensures
            r.recorded(*old(self), directive("warning"@, message@)),
            *final(self) == *final(r),
    {
        let instruction = Instruction::new("warning", Value::Singular(String::from_str(message)));
        self.custom_instruction(instruction)
    }

    /// Wrapper for `cargo:KEY=VALUE`. This is metadata, used by `links` scripts.
    pub fn cargo_mapping(&mut self, key: &str, value: &str) -> (r: &mut Self)
        requires
            old(self).wf(),
        ensures
            r.recorded(*old(self), "cargo"@ + seq![':'] + spec_pair(key@, value@)),
            *final(self) == *final(r),
    {
        let instruction = Instruction::new_mapping(
            Value::UnquotedMapping(String::from_str(key), String::from_str(value)),
        );
        self.custom_instruction(instruction)
    }

    /// Pass a custom instruction. Internally, [`BuildScript`](Self) uses this. This may be
    /// used for instructions that this library has no wrapper for yet.
    pub fn custom_instruction(&mut self, instruction: Instruction) -> (r: &mut Self)
        requires
            old(self).wf(),
            instruction.wf(),
        ensures
            r.recorded(*old(self), instruction.text()),
            *final(self) == *final(r),
    {
        self.parse_instruction(instruction);
        self
    }
}

/// In deferred mode, two recorded instructions are written by one flush after what was
/// queued before them, as two lines in the order they were recorded; nothing stays queued,
/// and a second flush writes nothing more.
pub proof fn lemma_deferred_flush_in_order(
    start: BuildScript,
    one: BuildScript,
    two: BuildScript,
    flushed: BuildScript,
    again: BuildScript,
    first: Seq<char>,
    second: Seq<char>,
)
    requires
        start.wf(),
        !start.immediate(),
        one.recorded(start, first),
        two.recorded(one, second),
        flushed.flushed(two),
        again.flushed(flushed),
    ensures
        flushed.written() == start.written() + lines(start.pending()) + terminated(first)
            + terminated(second),
        flushed.pending() == Seq::<Seq<char>>::empty(),
        again.written() == flushed.written(),
        again.pending() == Seq::<Seq<char>>::empty(),
{
    let queued = start.pending().push(first).push(second);
    assert(two.pending() == queued);
    assert(queued.drop_last() =~= start.pending().push(first));
    assert(start.pending().push(first).drop_last() =~= start.pending());
    assert(lines(queued) == lines(start.pending().push(first)) + terminated(second));
    assert(lines(start.pending().push(first)) == lines(start.pending()) + terminated(first));
    assert(lines(flushed.pending()) =~= Seq::<char>::empty());
    assert(flushed.written() =~= start.written() + lines(start.pending()) + terminated(first)
        + terminated(second));
    assert(again.written() =~= flushed.written());
}

/// In immediate mode, recording an instruction writes its one line at once and leaves the
/// queue as it was.
pub proof fn lemma_immediate_writes_at_once(start: BuildScript, next: BuildScript, line: Seq<char>)
    requires
        start.wf(),
        start.immediate(),
        next.recorded(start, line),
    ensures
        next.written() == start.written() + terminated(line),
        next.pending() == start.pending(),
        next.immediate(),
{
}

impl Default for BuildScript {
    /// The same as [`new`](Self::new): deferred mode, with nothing written.
    fn default() -> (r: Self)
        ensures
            r.wf(),
            r.pending() == Seq::<Seq<char>>::empty(),
            !r.immediate(),
            r.written() == Seq::<char>::empty(),
    {
        Self::new()
    }
}

} // verus!
