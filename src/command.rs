//! The three outside processes: the compiler, the program under test and the
//! debugger, each as a program name, its arguments and an optional file for
//! its standard input.
use vstd::prelude::*;
use vstd::string::*;

verus! {

/// A process to spawn and wait for.
pub struct ProcessCall {
    pub program: String,
    pub args: Vec<String>,
    /// A file whose content becomes the process's standard input.
    pub stdin: Option<String>,
}

/// A process call as plain text.
pub struct CallView {
    pub program: Seq<char>,
    pub args: Seq<Seq<char>>,
    pub stdin: Option<Seq<char>>,
}

impl View for ProcessCall {
    type V = CallView;

    open spec fn view(&self) -> CallView {
        CallView {
            program: self.program@,
            args: self.args@.map_values(|s: String| s@),
            stdin: match self.stdin {
                Some(s) => Some(s@),
                None => None,
            },
        }
    }
}

/// `g++ -g <source> -o <output>`.
pub open spec fn compile_call_spec(source: Seq<char>, output: Seq<char>) -> CallView {
    CallView { program: "g++"@, args: seq!["-g"@, source, "-o"@, output], stdin: None }
}

/// The compiled program, with no arguments, reading the input file.
pub open spec fn run_call_spec(exe: Seq<char>, input: Seq<char>) -> CallView {
    CallView { program: exe, args: seq![], stdin: Some(input) }
}

/// `gdb -q -ex "r < <input>" -ex bt -ex q <exe>`: run the program on the
/// input file, print a backtrace, quit.
pub open spec fn debug_call_spec(exe: Seq<char>, input: Seq<char>) -> CallView {
    CallView {
        program: "gdb"@,
        args: seq!["-q"@, "-ex"@, "r < "@ + input, "-ex"@, "bt"@, "-ex"@, "q"@, exe],
        stdin: None,
    }
}

/// The compiler call that builds `output` from `source` with debug symbols.
pub fn compile_call(source: &str, output: &str) -> (r: ProcessCall)
    ensures
        r@ == compile_call_spec(source@, output@),
{
    let mut args: Vec<String> = Vec::new();
    args.push("-g".to_owned());
    args.push(source.to_owned());
    args.push("-o".to_owned());
    args.push(output.to_owned());
    let r = ProcessCall { program: "g++".to_owned(), args, stdin: None };
    assert(r@.args =~= compile_call_spec(source@, output@).args);
    r
}

/// The call that runs the compiled program on the input file.
pub fn run_call(exe: &str, input: &str) -> (r: ProcessCall)
    ensures
        r@ == run_call_spec(exe@, input@),
{
    let r = ProcessCall { program: exe.to_owned(), args: Vec::new(), stdin: Some(input.to_owned()) };
    assert(r@.args =~= run_call_spec(exe@, input@).args);
    r
}

/// The debugger call that reruns the program on the same input file and
/// prints a backtrace.
pub fn debug_call(exe: &str, input: &str) -> (r: ProcessCall)
    ensures
        r@ == debug_call_spec(exe@, input@),
{
    let mut redirect = "r < ".to_owned();
    redirect.append(input);
    let mut args: Vec<String> = Vec::new();
    args.push("-q".to_owned());
    args.push("-ex".to_owned());
    args.push(redirect);
    args.push("-ex".to_owned());
    args.push("bt".to_owned());
    args.push("-ex".to_owned());
    args.push("q".to_owned());
    args.push(exe.to_owned());
    let r = ProcessCall { program: "gdb".to_owned(), args, stdin: None };
    assert(r@.args =~= debug_call_spec(exe@, input@).args);
    r
}

} // verus!
