//! External tool invocations described as plain data.
use vstd::prelude::*;

verus! {

/// A tool invocation: program, arguments, working directory and extra
/// environment variables.
pub struct Command {
    pub program: String,
    pub args: Vec<String>,
    pub current_dir: Option<String>,
    pub envs: Vec<(String, String)>,
}

/// The mathematical value of a [`Command`].
pub struct CommandModel {
    pub program: Seq<char>,
    pub args: Seq<Seq<char>>,
    pub current_dir: Option<Seq<char>>,
    pub envs: Seq<(Seq<char>, Seq<char>)>,
}

/// The texts of a list of strings.
pub open spec fn texts(v: Seq<String>) -> Seq<Seq<char>> {
    v.map_values(|s: String| s@)
}

/// The texts of an optional string.
pub open spec fn opt_text(o: Option<String>) -> Option<Seq<char>> {
    match o {
        Some(s) => Some(s@),
        None => None,
    }
}

/// The texts of a list of string pairs.
pub open spec fn pair_texts(v: Seq<(String, String)>) -> Seq<(Seq<char>, Seq<char>)> {
    v.map_values(|e: (String, String)| (e.0@, e.1@))
}

impl View for Command {
    type V = CommandModel;

    open spec fn view(&self) -> CommandModel {
        CommandModel {
            program: self.program@,
            args: texts(self.args@),
            current_dir: opt_text(self.current_dir),
            envs: pair_texts(self.envs@),
        }
    }
}

/// `a` followed by a path separator and `b`.
pub open spec fn join(a: Seq<char>, b: Seq<char>) -> Seq<char> {
    a + "/"@ + b
}

/// The path `b` inside the directory `a`.
pub fn join_path(a: &str, b: &str) -> (r: String)
    ensures
        r@ == join(a@, b@),
{
    let mut r = String::from_str(a);
    r.append("/");
    r.append(b);
    r
}

/// An owned copy of `s`.
pub fn text(s: &str) -> (r: String)
    ensures
        r@ == s@,
{
    String::from_str(s)
}

/// The invocation of the archive-merge tool that writes the universal
/// archive `output` from `inputs`, in their order.
pub open spec fn merge_model(inputs: Seq<Seq<char>>, output: Seq<char>) -> CommandModel {
    CommandModel {
        program: "lipo"@,
        args: seq!["-create"@, "-output"@, output] + inputs,
        current_dir: None,
        envs: Seq::empty(),
    }
}

/// Builds the archive-merge invocation for `inputs` and `output`.
pub fn merge_command(inputs: &Vec<String>, output: &str) -> (r: Command)
    ensures
        r@ == merge_model(texts(inputs@), output@),
{
    let mut args: Vec<String> = vec![text("-create"), text("-output"), text(output)];
    let mut i: usize = 0;
    while i < inputs.len()
        invariant
            i <= inputs@.len(),
            texts(args@) == seq!["-create"@, "-output"@, output@] + texts(inputs@.subrange(0, i as int)),
        decreases inputs@.len() - i,
    {
        let ghost prev = args@;
        args.push(inputs[i].clone());
        assert(inputs@.subrange(0, i + 1) =~= inputs@.subrange(0, i as int).push(inputs@[i as int]));
        assert(texts(args@) =~= texts(prev).push(inputs@[i as int]@));
        assert(texts(inputs@.subrange(0, i + 1)) =~= texts(inputs@.subrange(0, i as int)).push(
            inputs@[i as int]@,
        ));
        assert(texts(args@) =~= seq!["-create"@, "-output"@, output@] + texts(
            inputs@.subrange(0, i + 1),
        ));
        i = i + 1;
    }
    assert(inputs@.subrange(0, i as int) =~= inputs@);
    let r = Command { program: text("lipo"), args, current_dir: None, envs: Vec::new() };
    assert(r@.envs =~= Seq::<(Seq<char>, Seq<char>)>::empty());
    assert(r@.args =~= merge_model(texts(inputs@), output@).args);
    r
}

} // verus!
