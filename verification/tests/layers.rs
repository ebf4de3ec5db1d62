use rusty_v8::Address;
use rusty_v8::ContextScope;
use rusty_v8::HandleScope;
use rusty_v8::Isolate;
use rusty_v8::OwnedIsolate;
use rusty_v8::Script;
use rusty_v8::ToLocal;
use std::cell::Cell;
use std::rc::Rc;

struct Layer1 {
    isolate: OwnedIsolate,
    state: Layer1State,
    next: usize,
}

struct Layer1State {
    drop_count: Rc<Cell<usize>>,
    i: usize,
}

impl Drop for Layer1State {
    fn drop(&mut self) {
        self.drop_count.set(self.drop_count.get() + 1);
    }
}

impl Layer1 {
    fn new(drop_count: Rc<Cell<usize>>) -> Layer1 {
        let isolate = Isolate::new(Default::default(), Address::new(0x1000)).unwrap();
        let state = Layer1State { drop_count, i: 0 };
        Layer1 { isolate, state, next: 0x2000 }
    }

    // Stands in for the engine: hands out a fresh address for every value it
    // makes, and null where the script throws.
    fn reply(&mut self, throws: bool) -> Address {
        if throws {
            Address::null()
        } else {
            self.next += 8;
            Address::new(self.next)
        }
    }

    // Returns false if there was an error.
    fn execute(&mut self, code: &str) -> bool {
        let context_reply = self.reply(false);
        let source_reply = self.reply(false);
        let script_reply = self.reply(false);
        let result_reply = self.reply(code.starts_with("throw"));
        let isolate = self.isolate.isolate_mut();
        let hs = HandleScope::new(isolate);
        let context = hs.to_local(isolate, context_reply).unwrap();
        let cs = ContextScope::new(isolate, context);
        let source = cs.to_local(isolate, source_reply).unwrap();
        let script = Script::compile(isolate, context, source, None, script_reply).unwrap();
        let r = script.run(isolate, context, result_reply);
        cs.close(isolate);
        hs.close(isolate);
        r.is_some()
    }

    fn get_i(&self) -> usize {
        self.state.i
    }

    fn set_i(&mut self, i: usize) {
        self.state.i = i;
    }
}

#[test]
fn layer1_test() {
    let drop_count = Rc::new(Cell::new(0));

    let mut l = Layer1::new(drop_count.clone());
    assert!(l.execute("1 + 1"));
    assert!(!l.execute("throw 'foo'"));
    assert_eq!(0, l.get_i());
    l.set_i(123);
    assert_eq!(123, l.get_i());
    assert_eq!(drop_count.get(), 0);

    // The wrapped isolate is still there for its own operations.
    assert_eq!(l.isolate.isolate().scope_depth(), 0);
    assert_eq!(l.isolate.isolate().scopes_issued(), 4);

    drop(l);
    assert_eq!(drop_count.get(), 1);
}
