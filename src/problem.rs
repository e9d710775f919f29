use vstd::prelude::*;

verus! {

/// One of the problems a submission can target.
#[derive(Clone, Copy, Debug, PartialEq, Eq, Structural)]
pub enum Function {
    Arbitrary,
    Decode,
    Param,
    Prime,
}

/// The wire name of a problem, which is also the name of its template directory.
pub open spec fn function_name(f: Function) -> Seq<char> {
    match f {
        Function::Arbitrary => "arbitrary"@,
        Function::Decode => "decode"@,
        Function::Param => "param"@,
        Function::Prime => "prime"@,
    }
}

/// Where the templates live, relative to the server's working directory.
pub open spec fn templates_root() -> Seq<char> {
    "templates/"@
}

/// The file of a problem's template that a source submission replaces; none for the
/// problem whose submission is a parameter.
pub open spec fn submission_file(f: Function) -> Option<Seq<char>> {
    match f {
        Function::Arbitrary => Some("src/scaffold.rs"@),
        Function::Decode => Some("src/scaffold.rs"@),
        Function::Param => None,
        Function::Prime => Some("src/boilerplate.rs"@),
    }
}

/// The project manifest of a template.
pub open spec fn manifest_file() -> Seq<char> {
    "Cargo.toml"@
}

impl Function {
    /// The problem's wire name.
    pub fn name(&self) -> (r: &'static str)
        ensures
            r@ == function_name(*self),
    {
        match self {
            Function::Arbitrary => "arbitrary",
            Function::Decode => "decode",
            Function::Param => "param",
            Function::Prime => "prime",
        }
    }

    /// The problem named `name`, if there is one.
    pub fn from_name(name: &str) -> (r: Option<Function>)
        ensures
            r matches Some(f) ==> function_name(f) == name@,
            r is None ==> forall|f: Function| function_name(f) != name@,
    {
        let n = String::from_str(name);
        if n == String::from_str("arbitrary") {
            Some(Function::Arbitrary)
        } else if n == String::from_str("decode") {
            Some(Function::Decode)
        } else if n == String::from_str("param") {
            Some(Function::Param)
        } else if n == String::from_str("prime") {
            Some(Function::Prime)
        } else {
            None
        }
    }

    /// The problem's submission is a runtime parameter rather than source code.
    pub fn takes_parameter(&self) -> (r: bool)
        ensures
            r == (*self == Function::Param),
    {
        match self {
            Function::Param => true,
            _ => false,
        }
    }

    /// The template directory of the problem.
    pub fn template_dir(&self) -> (r: String)
        ensures
            r@ == templates_root() + function_name(*self),
    {
        String::from_str("templates/").concat(self.name())
    }
}

/// The file, relative to a workspace, that a source submission overwrites; none for a
/// problem whose submission is a parameter.
pub fn submission_path(f: Function) -> (r: Option<&'static str>)
    ensures
        r is None <==> submission_file(f) is None,
        r matches Some(p) ==> submission_file(f) == Some(p@),
{
    match f {
        Function::Arbitrary => Some("src/scaffold.rs"),
        Function::Decode => Some("src/scaffold.rs"),
        Function::Param => None,
        Function::Prime => Some("src/boilerplate.rs"),
    }
}

/// The scaffold shown to users of a problem, relative to the server's working directory.
pub fn scaffold_path(f: Function) -> (r: String)
    ensures
        r@ == templates_root() + function_name(f) + "/src/scaffold.rs"@,
{
    f.template_dir().concat("/src/scaffold.rs")
}

/// The manifest file, relative to a workspace.
pub fn manifest_path() -> (r: &'static str)
    ensures
        r@ == manifest_file(),
{
    "Cargo.toml"
}

/// A request to run code: the problem, the submitted source, and the parameter
/// of a parameterised problem.
#[derive(Clone, Debug)]
pub struct CodeSubmission {
    pub user_input: String,
    pub function: Function,
    pub param: Option<String>,
}

} // verus!
