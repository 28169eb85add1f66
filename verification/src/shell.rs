//! The built-in shell command module: its native functions, the adapters
//! that expose them as commands, and the setup routine that registers them.

use vstd::prelude::*;
use vstd::string::StringExecFns;
use crate::adapter::{spec_check, spec_extract, Adapter, ParamKind};
use crate::error::{Error, ErrorView};
use crate::registry::{seq_lookup, Registry};
use crate::store::ArgStore;
use crate::value::{Value, ValueView};

verus! {

/// The echo command's native function: returns its text unchanged.
pub fn shell_echo(text: String) -> (r: String)
    ensures
        r@ == text@,
{
    text
}

/// The built-in commands, one variant per generated adapter.
#[derive(Debug, Clone, Copy, PartialEq, Eq, Structural)]
pub enum BuiltinCommand {
    ShellEcho,
}

/// The declared parameter kinds of the echo command's native function:
/// one text parameter.
pub open spec fn shell_echo_params() -> Seq<ParamKind> {
    seq![ParamKind::Text]
}

impl Adapter for BuiltinCommand {
    /// Extraction over the declared signature decides the outcome; on
    /// success the echo command returns its extracted text unchanged.
    open spec fn spec_invoke(&self, args: Seq<ValueView>) -> Result<ValueView, ErrorView> {
        match self {
            BuiltinCommand::ShellEcho => match spec_extract(shell_echo_params(), args, 0) {
                Ok(vs) => Ok(vs[0]),
                Err(e) => Err(e),
            },
        }
    }

    fn invoke(&self, store: &ArgStore) -> (r: Result<Value, Error>)
        ensures
            match self.spec_invoke(store@) {
                Ok(v) => r matches Ok(value) && value@ == v,
                Err(e) => r matches Err(err) && err@ == e,
            },
    {
        match self {
            BuiltinCommand::ShellEcho => {
                proof {
                    lemma_shell_echo_extract(store@);
                }
                match store.get(0) {
                    Err(e) => Err(e),
                    Ok(v) => match v.to_text() {
                        Err(e) => Err(e),
                        Ok(text) => Ok(Value::String(shell_echo(text))),
                    },
                }
            },
        }
    }
}

/// Unfolds extraction over the echo command's one-parameter signature:
/// an empty store is missing its first argument, a non-text first argument
/// is an invalid type, and otherwise the extracted sequence holds exactly
/// the first argument.
pub proof fn lemma_shell_echo_extract(args: Seq<ValueView>)
    ensures
        args.len() == 0 ==> spec_extract(shell_echo_params(), args, 0) == Err::<
            Seq<ValueView>,
            ErrorView,
        >(ErrorView::MissingArgument(0)),
        args.len() > 0 ==> spec_extract(shell_echo_params(), args, 0) == (match spec_check(
            ParamKind::Text,
            args[0],
        ) {
            Ok(v) => Ok(seq![v]),
            Err(e) => Err::<Seq<ValueView>, ErrorView>(e),
        }),
{
    let params = shell_echo_params();
    assert(params.len() == 1 && params[0] == ParamKind::Text);
    assert(spec_extract(params, args, 1) == Ok::<Seq<ValueView>, ErrorView>(Seq::empty()));
    if args.len() > 0 {
        if spec_check(ParamKind::Text, args[0]) is Ok {
            let v = spec_check(ParamKind::Text, args[0])->Ok_0;
            assert(seq![v] + Seq::<ValueView>::empty() =~= seq![v]);
        }
    }
}

/// A store shorter than the echo command needs aborts the invocation with
/// a missing-argument error before the native function runs.
pub proof fn lemma_shell_echo_missing(args: Seq<ValueView>)
    requires
        args.len() == 0,
    ensures
        BuiltinCommand::ShellEcho.spec_invoke(args) == Err::<ValueView, ErrorView>(
            ErrorView::MissingArgument(0),
        ),
{
    lemma_shell_echo_extract(args);
}

/// A first argument of any variant but text aborts the invocation with an
/// invalid-type error before the native function runs.
pub proof fn lemma_shell_echo_wrong_variant(args: Seq<ValueView>)
    requires
        args.len() > 0,
        !(args[0] is String),
    ensures
        BuiltinCommand::ShellEcho.spec_invoke(args) == Err::<ValueView, ErrorView>(
            ErrorView::InvalidType("string"@, args[0]),
        ),
{
    lemma_shell_echo_extract(args);
}

/// On a store whose first argument is text, the echo command succeeds and
/// returns that argument unchanged.
pub proof fn lemma_shell_echo_echoes(args: Seq<ValueView>)
    requires
        args.len() > 0,
        args[0] is String,
    ensures
        BuiltinCommand::ShellEcho.spec_invoke(args) == Ok::<ValueView, ErrorView>(args[0]),
{
    lemma_shell_echo_extract(args);
}

/// Assembles the registry of built-in commands: each is registered once,
/// by name, and the assembled mapping is handed back for installation.
pub fn register_ds() -> (r: Registry<BuiltinCommand>)
    ensures
        r@.len() == 1,
        seq_lookup(r@, "shell_echo"@) == Some(BuiltinCommand::ShellEcho),
{
    let mut registry: Registry<BuiltinCommand> = Registry::new();
    let name = String::from_str("shell_echo");
    registry.register(name, BuiltinCommand::ShellEcho);
    proof {
        assert(registry@.last().0@ == "shell_echo"@);
    }
    registry
}

} // verus!
