use crate::error::DemoniteErr;
use crate::paths::{socket_path, socket_path_in};
use crate::wire::{
    call_bytes, decode_call_bytes, encode_call_bytes, encode_reply, parse_call, reply_bytes,
    reply_view, Call,
};
use vstd::prelude::*;
use vstd::string::StringExecFns;

verus! {

/// A declared service: its name, which also names its socket, and the closed
/// list of its procedures. A procedure is known by its position in the list.
pub struct Service {
    pub name: String,
    pub procedures: Vec<String>,
}

impl Service {
    /// Every procedure has a position that a `u32` tag can carry.
    pub open spec fn wf(&self) -> bool {
        self.procedures@.len() <= u32::MAX
    }

    /// The number of procedures, as a tag bound.
    pub open spec fn count(&self) -> u32 {
        self.procedures@.len() as u32
    }

    /// Whether the procedure at position `i` is named `name`.
    pub open spec fn named(&self, i: int, name: Seq<char>) -> bool {
        self.procedures@[i]@ == name
    }

    /// Declares a service; `None` where it has more procedures than a tag can
    /// tell apart.
    pub fn new(name: String, procedures: Vec<String>) -> (r: Option<Service>)
        ensures
            r is Some <==> procedures@.len() <= u32::MAX,
            r matches Some(s) ==> s.name == name && s.procedures == procedures && s.wf(),
    {
        if procedures.len() > u32::MAX as usize {
            None
        } else {
            Some(Service { name, procedures })
        }
    }

    /// The number of procedures.
    pub fn procedure_count(&self) -> (r: u32)
        requires
            self.wf(),
        ensures
            r == self.count(),
            r == self.procedures@.len(),
    {
        self.procedures.len() as u32
    }

    /// The position of the first procedure named `procedure`, if any.
    pub fn index_of(&self, procedure: &String) -> (r: Option<u32>)
        requires
            self.wf(),
        ensures
            match r {
                Some(i) => i < self.procedures@.len() && self.named(i as int, procedure@) && forall|
                    j: int,
                | 0 <= j < i ==> !self.named(j, procedure@),
                None => forall|j: int|
                    0 <= j < self.procedures@.len() ==> !self.named(j, procedure@),
            },
    {
        let mut i: usize = 0;
        while i < self.procedures.len()
            invariant
                self.wf(),
                0 <= i <= self.procedures@.len(),
                forall|j: int| 0 <= j < i ==> !self.named(j, procedure@),
            decreases self.procedures@.len() - i,
        {
            if self.procedures[i] == *procedure {
                return Some(i as u32);
            }
            i = i + 1;
        }
        None
    }

    /// Encodes a call of the procedure at position `procedure` with its
    /// encoded arguments. A position outside the service gives `Serialize`:
    /// no call outside the declared set is made.
    pub fn encode_call(&self, procedure: u32, args: &[u8]) -> (r: Result<Vec<u8>, DemoniteErr>)
        requires
            self.wf(),
        ensures
            procedure < self.count() ==> (r matches Ok(b) && b@ == call_bytes(procedure, args@)),
            procedure >= self.count() ==> (r matches Err(e) && e is Serialize),
    {
        if procedure >= self.procedure_count() {
            Err(DemoniteErr::Serialize(String::from_str("unknown procedure")))
        } else {
            Ok(encode_call_bytes(procedure, args))
        }
    }

    /// Encodes a call of the first procedure named `procedure`. A name outside
    /// the service gives `Serialize`.
    pub fn encode_named_call(&self, procedure: &String, args: &[u8]) -> (r: Result<
        Vec<u8>,
        DemoniteErr,
    >)
        requires
            self.wf(),
        ensures
            r is Ok <==> exists|i: int| 0 <= i < self.procedures@.len() && self.named(i, procedure@),
            r matches Ok(b) ==> exists|i: u32|
                {
                    &&& i < self.count()
                    &&& self.named(i as int, procedure@)
                    &&& forall|j: int| 0 <= j < i ==> !self.named(j, procedure@)
                    &&& #[trigger] call_bytes(i, args@) == b@
                },
            r matches Err(e) ==> e is Serialize,
    {
        match self.index_of(procedure) {
            Some(i) => self.encode_call(i, args),
            None => Err(DemoniteErr::Serialize(String::from_str("unknown procedure"))),
        }
    }

    /// Decodes a request received on the service's socket. Bytes that are not
    /// a call of one of its procedures give `Serialize`.
    pub fn decode_call(&self, request: &[u8]) -> (r: Result<Call, DemoniteErr>)
        requires
            self.wf(),
        ensures
            match parse_call(request@, self.count()) {
                Some((p, args)) => r matches Ok(c) && c.procedure == p && c.args@ == args,
                None => r matches Err(e) && e is Serialize,
            },
    {
        decode_call_bytes(request, self.procedure_count())
    }

    /// Answers one request received on the service's socket: `None` where it
    /// holds no call of this service, so that the connection is dropped
    /// unanswered; else the reply that carries what `dispatch` returned for the
    /// decoded call.
    pub fn answer<F>(&self, request: &[u8], dispatch: F) -> (r: Option<Vec<u8>>) where
        F: FnOnce(Call) -> Result<Vec<u8>, DemoniteErr>,

        requires
            self.wf(),
            forall|c: Call| dispatch.requires((c,)),
        ensures
            parse_call(request@, self.count()) is None ==> r is None,
            parse_call(request@, self.count()) matches Some((p, args)) ==> exists|
                c: Call,
                out: Result<Vec<u8>, DemoniteErr>,
            |
                {
                    &&& c.procedure == p
                    &&& c.args@ == args
                    &&& #[trigger] dispatch.ensures((c,), out)
                    &&& r matches Some(b)
                    &&& b@ == reply_bytes(reply_view(&out))
                },
    {
        match self.decode_call(request) {
            Err(_) => None,
            Ok(call) => {
                let ghost c = call;
                let out = dispatch(call);
                let reply = encode_reply(&out);
                assert(dispatch.ensures((c,), out));
                Some(reply)
            },
        }
    }

    /// Where this service listens, under `runtime_dir`.
    pub fn socket_path(&self, runtime_dir: &str) -> (r: String)
        ensures
            r@ == socket_path(runtime_dir@, self.name@),
    {
        socket_path_in(runtime_dir, self.name.as_str())
    }
}

} // verus!
