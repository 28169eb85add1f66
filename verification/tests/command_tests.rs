use dyncmd::adapter::{extract_args, ParamKind};
use dyncmd::error::Error;
use dyncmd::registry::Registry;
use dyncmd::shell::{register_ds, shell_echo, BuiltinCommand};
use dyncmd::store::ArgStore;
use dyncmd::value::Value;

fn store_of(values: Vec<Value>) -> ArgStore {
    ArgStore::from_values(values)
}

#[test]
fn store_access_is_bounds_checked() {
    let mut store = ArgStore::new();
    assert_eq!(store.len(), 0);
    assert_eq!(store.get(0), Err(Error::MissingArgument(0)));
    store.push(Value::Integer(7));
    store.push(Value::Nil);
    assert_eq!(store.len(), 2);
    assert_eq!(store.get(0), Ok(Value::Integer(7)));
    assert_eq!(store.get(1), Ok(Value::Nil));
    assert_eq!(store.get(2), Err(Error::MissingArgument(2)));
}

/// A native function with parameters (i32, &Connection, String): the
/// reference parameter comes from ambient context, not from the store.
fn describe(count: i32, tag: &str, name: String) -> String {
    format!("{}:{}:{}", tag, count, name)
}

#[test]
fn extraction_skips_reference_parameters() {
    // Positions 0 and 2 are extracted; position 1, the reference, is
    // skipped while still counting in the positional indexing.
    let params = vec![ParamKind::Int32, ParamKind::Reference, ParamKind::Text];
    let store = store_of(vec![
        Value::Integer(5),
        Value::Nil,
        Value::String("x".to_string()),
    ]);
    let extracted = extract_args(&params, &store).unwrap();
    assert_eq!(
        extracted,
        vec![Value::Integer(5), Value::String("x".to_string())]
    );

    // The native call receives exactly the two coerced arguments, in their
    // filtered relative order; the reference comes from ambient context.
    let mut it = extracted.into_iter();
    let count = it.next().unwrap().to_i32().unwrap();
    let name = it.next().unwrap().to_text().unwrap();
    assert!(it.next().is_none());
    let ambient_connection = "conn";
    assert_eq!(describe(count, ambient_connection, name), "conn:5:x");
}

#[test]
fn extraction_aborts_on_first_failure() {
    let params = vec![ParamKind::Int32, ParamKind::Reference, ParamKind::Text];
    // Too short for the text parameter at original position 2.
    let short = store_of(vec![Value::Integer(5)]);
    assert_eq!(
        extract_args(&params, &short),
        Err(Error::MissingArgument(2))
    );
    // A wrong variant at position 0 aborts before position 2 is consulted.
    let wrong = store_of(vec![
        Value::Boolean(true),
        Value::Nil,
        Value::Integer(9),
    ]);
    assert_eq!(
        extract_args(&params, &wrong),
        Err(Error::InvalidType("i32".to_string(), Value::Boolean(true)))
    );
    // An empty parameter list extracts nothing, whatever the store holds.
    assert_eq!(extract_args(&vec![], &short), Ok(vec![]));
}

#[test]
fn strict_extraction_of_each_kind() {
    let params = vec![ParamKind::Number];
    let store = store_of(vec![Value::Integer(1)]);
    assert_eq!(
        extract_args(&params, &store),
        Err(Error::InvalidType("number".to_string(), Value::Integer(1)))
    );
    let params = vec![ParamKind::Boolean];
    assert_eq!(
        extract_args(&params, &store),
        Err(Error::InvalidType("bool".to_string(), Value::Integer(1)))
    );
    let params = vec![ParamKind::Bytes];
    assert_eq!(
        extract_args(&params, &store),
        Err(Error::InvalidType("bytes".to_string(), Value::Integer(1)))
    );
    let params = vec![ParamKind::Int64];
    assert_eq!(extract_args(&params, &store), Ok(vec![Value::Integer(1)]));
}

#[test]
fn shell_echo_returns_its_text() {
    assert_eq!(shell_echo("hello".to_string()), "hello");
}

#[test]
fn invoke_registered_command() {
    let registry = register_ds();
    assert_eq!(registry.len(), 1);
    let store = store_of(vec![Value::String("hello".to_string())]);
    assert_eq!(
        registry.invoke("shell_echo", &store),
        Ok(Value::String("hello".to_string()))
    );
}

#[test]
fn invoke_unregistered_command() {
    let registry = register_ds();
    let store = store_of(vec![Value::String("hello".to_string())]);
    assert_eq!(
        registry.invoke("shell_ech", &store),
        Err(Error::CommandNotFound("shell_ech".to_string()))
    );
}

#[test]
fn invoke_with_short_store() {
    // The store is shorter than the command needs: the invocation fails
    // before the native function could run.
    let registry = register_ds();
    let empty = ArgStore::new();
    assert_eq!(
        registry.invoke("shell_echo", &empty),
        Err(Error::MissingArgument(0))
    );
}

#[test]
fn invoke_with_wrong_variant() {
    // A non-text first argument fails extraction; under the strict
    // coercion policy nothing is rendered across variants.
    let registry = register_ds();
    let store = store_of(vec![Value::Integer(5)]);
    assert_eq!(
        registry.invoke("shell_echo", &store),
        Err(Error::InvalidType("string".to_string(), Value::Integer(5)))
    );
}

#[test]
fn registration_is_last_write_wins() {
    let mut registry: Registry<BuiltinCommand> = Registry::new();
    registry.register("echo".to_string(), BuiltinCommand::ShellEcho);
    registry.register("echo".to_string(), BuiltinCommand::ShellEcho);
    // Both entries are kept; lookups resolve to the later one.
    assert_eq!(registry.len(), 2);
    let store = store_of(vec![Value::String("again".to_string())]);
    assert_eq!(
        registry.invoke("echo", &store),
        Ok(Value::String("again".to_string()))
    );
}
