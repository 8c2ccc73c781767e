use std::collections::HashMap;
use vstd::prelude::*;
use vstd::string::StringExecFns;

verus! {

broadcast use vstd::std_specs::hash::group_hash_axioms;

/// The decimal digit `d` (below ten) as a character.
pub open spec fn digit_char(d: nat) -> char {
    if d == 0 {
        '0'
    } else if d == 1 {
        '1'
    } else if d == 2 {
        '2'
    } else if d == 3 {
        '3'
    } else if d == 4 {
        '4'
    } else if d == 5 {
        '5'
    } else if d == 6 {
        '6'
    } else if d == 7 {
        '7'
    } else if d == 8 {
        '8'
    } else {
        '9'
    }
}

/// `n` written in decimal, with no leading zeros.
pub open spec fn decimal(n: nat) -> Seq<char>
    decreases n,
{
    if n < 10 {
        seq![digit_char(n)]
    } else {
        decimal(n / 10).push(digit_char(n % 10))
    }
}

/// A server-sent event that carries `msg` as its data.
pub open spec fn event_frame_spec(msg: Seq<char>) -> Seq<char> {
    "data: "@ + msg + "\n\n"@
}

fn digit_text(d: u64) -> (r: &'static str)
    requires
        d < 10,
    ensures
        r@ == seq![digit_char(d as nat)],
{
    proof {
        reveal_strlit("0");
        reveal_strlit("1");
        reveal_strlit("2");
        reveal_strlit("3");
        reveal_strlit("4");
        reveal_strlit("5");
        reveal_strlit("6");
        reveal_strlit("7");
        reveal_strlit("8");
        reveal_strlit("9");
    }
    match d {
        0 => "0",
        1 => "1",
        2 => "2",
        3 => "3",
        4 => "4",
        5 => "5",
        6 => "6",
        7 => "7",
        8 => "8",
        _ => "9",
    }
}

/// `n` written in decimal.
pub fn decimal_text(n: u64) -> (r: String)
    ensures
        r@ == decimal(n as nat),
    decreases n,
{
    if n < 10 {
        String::from_str(digit_text(n))
    } else {
        let mut s = decimal_text(n / 10);
        s.append(digit_text(n % 10));
        s
    }
}

/// Frames `msg` as one server-sent event: `data: `, the message, and a blank
/// line.
pub fn event_frame(msg: &str) -> (r: String)
    ensures
        r@ == event_frame_spec(msg@),
{
    let mut s = String::from_str("data: ");
    s.append(msg);
    s.append("\n\n");
    s
}

/// The event sent to a client as soon as it connects.
pub fn connected_event() -> (r: String)
    ensures
        r@ == event_frame_spec("connected"@),
{
    event_frame("connected")
}

/// The event that reports `completed` finished samples.
pub fn progress_event(completed: u64) -> (r: String)
    ensures
        r@ == event_frame_spec(decimal(completed as nat)),
{
    let text = decimal_text(completed);
    event_frame(text.as_str())
}

/// The clients that follow a render, each under the key that its connection
/// was opened with.
pub struct ClientRegistry<C> {
    clients: HashMap<u64, C>,
}

impl<C> View for ClientRegistry<C> {
    type V = Map<u64, C>;

    closed spec fn view(&self) -> Map<u64, C> {
        self.clients@
    }
}

impl<C> ClientRegistry<C> {
    pub fn new() -> (r: ClientRegistry<C>)
        ensures
            r@ == Map::<u64, C>::empty(),
    {
        ClientRegistry { clients: HashMap::new() }
    }

    /// Registers `client` under `key`, replacing a client already there.
    pub fn connect(&mut self, key: u64, client: C)
        ensures
            final(self)@ == old(self)@.insert(key, client),
    {
        self.clients.insert(key, client);
    }

    /// Removes the client under `key` and hands it back, if there was one.
    pub fn disconnect(&mut self, key: u64) -> (r: Option<C>)
        ensures
            final(self)@ == old(self)@.remove(key),
            r is Some <==> old(self)@.contains_key(key),
            r is Some ==> r->0 == old(self)@[key],
    {
        self.clients.remove(&key)
    }

    /// The client under `key`, if there is one.
    pub fn client(&self, key: u64) -> (r: Option<&C>)
        ensures
            r is Some <==> self@.contains_key(key),
            r is Some ==> *r->0 == self@[key],
    {
        self.clients.get(&key)
    }

    /// Number of clients connected.
    pub fn len(&self) -> (r: usize)
        ensures
            r == self@.len(),
    {
        self.clients.len()
    }
}

} // verus!
