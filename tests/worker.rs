use rustyscript_worker::{
    evaluate, expect_ack, expect_module_id, expect_value, handle_query, handshake_outcome, import,
    into_arg, join_outcome, sanitize_panic_message, validate, validation_result, CommonWorker,
    DefaultWorkerOptions, DefaultWorkerQuery, DefaultWorkerResponse, DispatchAction, Dispatcher,
    Error, Module, ModuleId,
};
use std::collections::HashMap;
use vstd::seq::Seq;

// A small engine for the tests: statements are sums and differences of integers, separated by
// `;`; a module is a list of `export function NAME(){return EXPR}` items, or plain statements.

struct Handle {
    id: ModuleId,
    functions: Vec<(String, String)>,
}

struct TestEngine {
    next_id: ModuleId,
    globals: Vec<(String, i64)>,
}

fn syntax(code: &str) -> Result<Vec<Vec<String>>, Error> {
    let mut statements = Vec::new();
    for stmt in code.split(';') {
        let stmt = stmt.trim();
        if stmt.is_empty() {
            continue;
        }
        let mut tokens = Vec::new();
        let mut word = String::new();
        for c in stmt.chars() {
            if c.is_alphanumeric() || c == '_' {
                word.push(c);
            } else {
                if !word.is_empty() {
                    tokens.push(std::mem::take(&mut word));
                }
                if c == '+' || c == '-' {
                    tokens.push(c.to_string());
                } else if !c.is_whitespace() {
                    return Err(Error::Engine(format!("unexpected token {}", c)));
                }
            }
        }
        if !word.is_empty() {
            tokens.push(word);
        }
        for (i, t) in tokens.iter().enumerate() {
            let is_op = t == "+" || t == "-";
            if is_op == (i % 2 == 0) {
                return Err(Error::Engine("unexpected token".to_string()));
            }
        }
        if tokens.len() % 2 == 0 {
            return Err(Error::Engine("unexpected end of input".to_string()));
        }
        statements.push(tokens);
    }
    Ok(statements)
}

impl TestEngine {
    fn run(&self, code: &str) -> Result<serde_json::Value, Error> {
        let mut last = serde_json::Value::Null;
        for tokens in syntax(code)? {
            let mut total: i64 = 0;
            let mut sign: i64 = 1;
            for t in tokens {
                if t == "+" {
                    sign = 1;
                } else if t == "-" {
                    sign = -1;
                } else if let Ok(n) = t.parse::<i64>() {
                    total += sign * n;
                } else if let Some((_, v)) = self.globals.iter().find(|(k, _)| *k == t) {
                    total += sign * v;
                } else {
                    return Err(Error::Engine(format!("{} is not defined", t)));
                }
            }
            last = serde_json::Value::from(total);
        }
        Ok(last)
    }

    fn parse_module(&mut self, module: &Module) -> Result<Handle, Error> {
        let mut functions = Vec::new();
        let mut rest = module.contents.trim();
        while let Some(after) = rest.strip_prefix("export function ") {
            let open = after.find("(){return ").ok_or(Error::Engine("bad function".to_string()))?;
            let close = after.find('}').ok_or(Error::Engine("bad function".to_string()))?;
            let name = after[..open].trim().to_string();
            let body = after[open + "(){return ".len()..close].to_string();
            syntax(&body)?;
            functions.push((name, body));
            rest = after[close + 1..].trim();
        }
        syntax(rest)?;
        self.next_id += 1;
        Ok(Handle { id: self.next_id, functions })
    }

    fn call(&self, handle: Option<&Handle>, name: &str) -> Result<serde_json::Value, Error> {
        match handle.and_then(|h| h.functions.iter().find(|(n, _)| n == name)) {
            Some((_, body)) => self.run(body),
            None => Err(Error::Engine(format!("{} is not a function", name))),
        }
    }
}

// The test engine promises nothing beyond its types: each outcome relation holds of every outcome.
impl CommonWorker for TestEngine {
    type ModuleHandle = Handle;

    fn initialized(_options: DefaultWorkerOptions, _r: Result<Self, Error>) -> bool {
        true
    }

    fn id_of(handle: Handle) -> ModuleId {
        handle.id
    }

    fn evaluated(&self, _code: Seq<char>, _r: Result<serde_json::Value, Error>) -> bool {
        true
    }

    fn loaded_main(&self, _module: Module, _r: Result<Handle, Error>) -> bool {
        true
    }

    fn loaded_side(&self, _module: Module, _r: Result<Handle, Error>) -> bool {
        true
    }

    fn entrypoint_called(&self, _h: Handle, _args: Seq<serde_json::Value>, _r: Result<serde_json::Value, Error>) -> bool {
        true
    }

    fn function_called(
        &self,
        _h: Option<Handle>,
        _name: Seq<char>,
        _args: Seq<serde_json::Value>,
        _r: Result<serde_json::Value, Error>,
    ) -> bool {
        true
    }

    fn value_read(&self, _h: Option<Handle>, _name: Seq<char>, _r: Result<serde_json::Value, Error>) -> bool {
        true
    }

    fn init_runtime(options: DefaultWorkerOptions) -> Result<Self, Error> {
        match options.default_entrypoint {
            Some(name) if name.is_empty() => Err(Error::Engine("empty entrypoint name".to_string())),
            _ => Ok(TestEngine { next_id: 0, globals: vec![("answer".to_string(), 42)] }),
        }
    }

    fn module_id(handle: &Handle) -> ModuleId {
        handle.id
    }

    fn eval(&mut self, code: &str) -> Result<serde_json::Value, Error> {
        self.run(code)
    }

    fn load_main_module(&mut self, module: &Module) -> Result<Handle, Error> {
        self.parse_module(module)
    }

    fn load_module(&mut self, module: &Module) -> Result<Handle, Error> {
        self.parse_module(module)
    }

    fn call_entrypoint(&mut self, handle: &Handle, _args: &Vec<serde_json::Value>) -> Result<serde_json::Value, Error> {
        match handle.functions.first() {
            Some((_, body)) => self.run(body),
            None => Err(Error::Engine("no entrypoint".to_string())),
        }
    }

    fn call_function(&mut self, handle: Option<&Handle>, name: &str, _args: &Vec<serde_json::Value>) -> Result<serde_json::Value, Error> {
        self.call(handle, name)
    }

    fn get_value(&mut self, handle: Option<&Handle>, name: &str) -> Result<serde_json::Value, Error> {
        match handle {
            Some(_) => self.call(handle, name),
            None => self.run(name),
        }
    }
}

fn started() -> Dispatcher<TestEngine> {
    match Dispatcher::<TestEngine>::start(DefaultWorkerOptions::default()) {
        Ok(d) => d,
        Err(_) => panic!("the engine did not start"),
    }
}

fn reply(action: DispatchAction) -> DefaultWorkerResponse {
    match action {
        DispatchAction::Reply(r) => r,
        _ => panic!("expected a reply that keeps the worker running"),
    }
}

fn as_i64(r: DefaultWorkerResponse) -> i64 {
    expect_value(r).expect("a value").as_i64().expect("an integer")
}

#[test]
fn test_evaluate() {
    assert_eq!(5, evaluate::<TestEngine>("3 + 2").expect("invalid expression").as_i64().unwrap());
    evaluate::<TestEngine>("a5; 3 + 2").expect_err("Expected an error");
}

#[test]
fn test_validate() {
    assert_eq!(true, validate::<TestEngine>("3 + 2").expect("invalid expression"));
    assert_eq!(false, validate::<TestEngine>("5;+-").expect("invalid expression"));
}

#[test]
fn load_module_then_call_entrypoint() {
    let mut d = started();
    let module = Module::new("m.js", "export function load(){return 1}");
    let handle = expect_module_id(reply(d.on_event(Some(DefaultWorkerQuery::LoadModule(module)))))
        .expect("the module loads");
    let r = reply(d.on_event(Some(DefaultWorkerQuery::CallEntrypoint(handle, vec![]))));
    assert_eq!(1, as_i64(r));
}

#[test]
fn call_function_in_unknown_module() {
    let mut d = started();
    let r = reply(d.on_event(Some(DefaultWorkerQuery::CallFunction(Some(7), "f".to_string(), vec![]))));
    assert_eq!(Err(Error::Engine("module not found".to_string())), expect_value(r));
}

#[test]
fn entrypoint_and_value_of_unknown_module() {
    let mut d = started();
    let r = reply(d.on_event(Some(DefaultWorkerQuery::CallEntrypoint(3, vec![]))));
    assert_eq!(Err(Error::Engine("module not found".to_string())), expect_value(r));
    let r = reply(d.on_event(Some(DefaultWorkerQuery::GetValue(Some(3), "x".to_string()))));
    assert_eq!(Err(Error::Engine("module not found".to_string())), expect_value(r));
}

#[test]
fn eval_through_the_dispatcher() {
    let mut d = started();
    let r = reply(d.on_event(Some(DefaultWorkerQuery::Eval("3 + 2".to_string()))));
    assert_eq!(5, as_i64(r));
    let r = reply(d.on_event(Some(DefaultWorkerQuery::Eval("a5; 3 + 2".to_string()))));
    assert!(matches!(expect_value(r), Err(Error::Engine(_))));
}

#[test]
fn replies_come_in_request_order() {
    let mut d = started();
    let codes = ["1", "2 + 2", "x", "10 - 3", "answer"];
    let mut replies = Vec::new();
    for code in codes {
        replies.push(reply(d.on_event(Some(DefaultWorkerQuery::Eval(code.to_string())))));
    }
    assert_eq!(codes.len(), replies.len());
    let got: Vec<Option<i64>> = replies
        .into_iter()
        .map(|r| expect_value(r).ok().and_then(|v| v.as_i64()))
        .collect();
    assert_eq!(vec![Some(1), Some(4), None, Some(7), Some(42)], got);
}

#[test]
fn stop_acknowledges_and_ends() {
    let mut d = started();
    match d.on_event(Some(DefaultWorkerQuery::Stop)) {
        DispatchAction::ReplyAndExit(r) => assert_eq!(Ok(()), expect_ack(r)),
        _ => panic!("Stop must be acknowledged and end the loop"),
    }
    assert!(matches!(d.on_event(Some(DefaultWorkerQuery::Eval("1".to_string()))), DispatchAction::Exit));
}

#[test]
fn closed_channel_ends_without_reply() {
    let mut d = started();
    assert!(matches!(d.on_event(None), DispatchAction::Exit));
    assert!(matches!(d.on_event(Some(DefaultWorkerQuery::Stop)), DispatchAction::Exit));
}

#[test]
fn invalid_options_fail_construction() {
    let options = DefaultWorkerOptions {
        default_entrypoint: Some(String::new()),
        timeout: std::time::Duration::from_secs(1),
    };
    match Dispatcher::<TestEngine>::start(options) {
        Err(Error::Init(m)) => assert_eq!("empty entrypoint name", m),
        _ => panic!("expected an initialization error"),
    }
}

#[test]
fn global_scope_and_module_functions() {
    let mut d = started();
    let r = reply(d.on_event(Some(DefaultWorkerQuery::GetValue(None, "answer".to_string()))));
    assert_eq!(42, as_i64(r));
    let module = Module::new("lib.js", "export function a(){return 2} export function b(){return 3 + answer}");
    let id = expect_module_id(reply(d.on_event(Some(DefaultWorkerQuery::LoadMainModule(module))))).unwrap();
    let r = reply(d.on_event(Some(DefaultWorkerQuery::CallFunction(Some(id), "b".to_string(), vec![]))));
    assert_eq!(45, as_i64(r));
    let bad = Module::new("bad.js", "+-");
    let r = reply(d.on_event(Some(DefaultWorkerQuery::LoadModule(bad))));
    assert!(matches!(expect_module_id(r), Err(Error::Engine(_))));
}

#[test]
fn handle_query_records_loaded_modules() {
    let mut engine = TestEngine::init_runtime(DefaultWorkerOptions::default()).unwrap();
    let mut modules = HashMap::new();
    let module = Module::new("m.js", "export function load(){return 1}");
    let r = handle_query(&mut engine, &mut modules, DefaultWorkerQuery::LoadModule(module));
    let id = expect_module_id(r).unwrap();
    assert!(modules.contains_key(&id));
    assert!(matches!(handle_query(&mut engine, &mut modules, DefaultWorkerQuery::Stop), DefaultWorkerResponse::Ack));
}

#[test]
fn sanitize_drops_backtrace() {
    let m = "  engine failed to start \nStack backtrace:\n   0: foo\n   1: bar";
    assert_eq!("engine failed to start", sanitize_panic_message(m));
}

#[test]
fn sanitize_keeps_first_line() {
    let m = "\tfirst line\nsecond line\n";
    assert_eq!("first line", sanitize_panic_message(m));
    assert_eq!("plain", sanitize_panic_message("plain"));
    assert_eq!("", sanitize_panic_message("Stack backtrace: everything"));
    assert_eq!("", sanitize_panic_message(""));
}

#[test]
fn sanitize_trims_unicode_whitespace() {
    assert_eq!("ünïcode", sanitize_panic_message("\u{3000}\u{a0} ünïcode \u{2029}Stack backtrace"));
}

#[test]
fn handshake_outcomes() {
    assert_eq!(Ok(()), handshake_outcome(Some(None), None));
    let e = Error::Init("bad options".to_string());
    assert_eq!(Err(e.clone()), handshake_outcome(Some(Some(e)), None));
    assert_eq!(
        Err(Error::Init("boom".to_string())),
        handshake_outcome(None, Some("boom\nStack backtrace:\n 0: x".to_string()))
    );
    assert_eq!(
        Err(Error::Init("Could not start runtime thread".to_string())),
        handshake_outcome(None, None)
    );
}

#[test]
fn join_outcomes() {
    assert_eq!(Ok(()), join_outcome(Ok(())));
    assert_eq!(Err(Error::Panic("oops".to_string())), join_outcome(Err(Some(" oops \nStack backtrace".to_string()))));
    assert_eq!(Err(Error::Panic("Worker thread panicked".to_string())), join_outcome(Err(None)));
}

#[test]
fn mismatched_replies_are_protocol_errors() {
    let unexpected = Err(Error::Protocol("unexpected response from the worker".to_string()));
    assert_eq!(unexpected, expect_value(DefaultWorkerResponse::ModuleId(3)));
    assert_eq!(unexpected, expect_module_id(DefaultWorkerResponse::Ack).map(|_| serde_json::Value::Null));
    assert_eq!(unexpected, expect_ack(DefaultWorkerResponse::Value(serde_json::Value::Null)).map(|_| serde_json::Value::Null));
    assert_eq!(Ok(4), expect_module_id(DefaultWorkerResponse::ModuleId(4)));
    let e = Error::Engine("x".to_string());
    assert_eq!(Err(e.clone()), expect_value(DefaultWorkerResponse::Error(e)));
}

#[test]
fn validation_results() {
    assert_eq!(Ok(true), validation_result::<u8>(Ok(1)));
    assert_eq!(Ok(false), validation_result::<u8>(Err(Error::Engine("syntax".to_string()))));
    let e = Error::Channel("gone".to_string());
    assert_eq!(Err(e.clone()), validation_result::<u8>(Err(e)));
}

#[test]
fn import_loads_into_fresh_engine() {
    let module = Module::new("m.js", "export function load(){return 1}");
    let mut wrapper = import::<TestEngine>(&module).expect("the module loads");
    assert_eq!(1, wrapper.module_id());
    let v = wrapper.runtime.call_entrypoint(&wrapper.module, &vec![]).unwrap();
    assert_eq!(Some(1), v.as_i64());
    assert!(import::<TestEngine>(&Module::new("bad.js", "5;+-")).is_err());
}

#[test]
fn into_arg_converts() {
    assert_eq!(serde_json::Value::from(10), into_arg(10i64));
    assert_eq!(serde_json::Value::String("a".to_string()), into_arg("a"));
}

#[test]
fn error_messages() {
    assert_eq!("x", Error::Channel("x".to_string()).message());
    assert_eq!("y".to_string(), Error::Panic("y".to_string()).into_message());
}
