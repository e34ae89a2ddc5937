//! Messages handed to the host, and lookup of their headers.
//!
//! A message is immutable once made: every view the host takes of its topic,
//! payload or headers shows exactly the bytes it was made with, for as long
//! as the message lives.

use vstd::prelude::*;

verus! {

/// One header of a message: a name and its values, in the order received.
#[derive(Debug)]
pub struct HeaderEntry {
    pub name: String,
    pub values: Vec<String>,
}

/// Status codes that a message may carry.
#[allow(non_camel_case_types)]
#[derive(Clone, Copy, Debug, PartialEq, Eq, Structural)]
pub enum AsyncNatsMessageStatus {
    AsyncNatsMessageStatus_None,
    AsyncNatsMessageStatus_IdleHeartbeat,
    AsyncNatsMessageStatus_Ok,
    AsyncNatsMessageStatus_NotFound,
    AsyncNatsMessageStatus_Timeout,
    AsyncNatsMessageStatus_NoResponders,
    AsyncNatsMessageStatus_RequestTerminated,
}

/// The numeric code of each status; zero stands for no status.
pub open spec fn status_code_of(s: AsyncNatsMessageStatus) -> u16 {
    match s {
        AsyncNatsMessageStatus::AsyncNatsMessageStatus_None => 0,
        AsyncNatsMessageStatus::AsyncNatsMessageStatus_IdleHeartbeat => 100,
        AsyncNatsMessageStatus::AsyncNatsMessageStatus_Ok => 200,
        AsyncNatsMessageStatus::AsyncNatsMessageStatus_NotFound => 404,
        AsyncNatsMessageStatus::AsyncNatsMessageStatus_Timeout => 408,
        AsyncNatsMessageStatus::AsyncNatsMessageStatus_NoResponders => 503,
        AsyncNatsMessageStatus::AsyncNatsMessageStatus_RequestTerminated => 409,
    }
}

impl AsyncNatsMessageStatus {
    pub fn code(&self) -> (r: u16)
        ensures
            r == status_code_of(*self),
    {
        match self {
            AsyncNatsMessageStatus::AsyncNatsMessageStatus_None => 0,
            AsyncNatsMessageStatus::AsyncNatsMessageStatus_IdleHeartbeat => 100,
            AsyncNatsMessageStatus::AsyncNatsMessageStatus_Ok => 200,
            AsyncNatsMessageStatus::AsyncNatsMessageStatus_NotFound => 404,
            AsyncNatsMessageStatus::AsyncNatsMessageStatus_Timeout => 408,
            AsyncNatsMessageStatus::AsyncNatsMessageStatus_NoResponders => 503,
            AsyncNatsMessageStatus::AsyncNatsMessageStatus_RequestTerminated => 409,
        }
    }

    /// The status with the given code, if the code is a known one.
    pub fn from_code(code: u16) -> (r: Option<AsyncNatsMessageStatus>)
        ensures
            r matches Some(s) ==> status_code_of(s) == code,
            r is None <==> (forall|s: AsyncNatsMessageStatus| status_code_of(s) != code),
    {
        let r = if code == 0 {
            Some(AsyncNatsMessageStatus::AsyncNatsMessageStatus_None)
        } else if code == 100 {
            Some(AsyncNatsMessageStatus::AsyncNatsMessageStatus_IdleHeartbeat)
        } else if code == 200 {
            Some(AsyncNatsMessageStatus::AsyncNatsMessageStatus_Ok)
        } else if code == 404 {
            Some(AsyncNatsMessageStatus::AsyncNatsMessageStatus_NotFound)
        } else if code == 408 {
            Some(AsyncNatsMessageStatus::AsyncNatsMessageStatus_Timeout)
        } else if code == 503 {
            Some(AsyncNatsMessageStatus::AsyncNatsMessageStatus_NoResponders)
        } else if code == 409 {
            Some(AsyncNatsMessageStatus::AsyncNatsMessageStatus_RequestTerminated)
        } else {
            None
        };
        proof {
            if r is None {
                assert forall|s: AsyncNatsMessageStatus| status_code_of(s) != code by {
                    match s {
                        AsyncNatsMessageStatus::AsyncNatsMessageStatus_None => {},
                        AsyncNatsMessageStatus::AsyncNatsMessageStatus_IdleHeartbeat => {},
                        AsyncNatsMessageStatus::AsyncNatsMessageStatus_Ok => {},
                        AsyncNatsMessageStatus::AsyncNatsMessageStatus_NotFound => {},
                        AsyncNatsMessageStatus::AsyncNatsMessageStatus_Timeout => {},
                        AsyncNatsMessageStatus::AsyncNatsMessageStatus_NoResponders => {},
                        AsyncNatsMessageStatus::AsyncNatsMessageStatus_RequestTerminated => {},
                    }
                }
            }
        }
        r
    }
}

/// A character that may stand in a header name: anything but `:` whose low
/// byte is a visible ASCII character.
pub open spec fn header_name_char(c: char) -> bool {
    c != ':' && 33 <= (c as u32) % 256 <= 126
}

/// A string that can be used as a header name.
pub open spec fn is_header_name(s: Seq<char>) -> bool {
    forall|i: int| 0 <= i < s.len() ==> header_name_char(#[trigger] s[i])
}

/// Index of the first header named `name`.
pub open spec fn first_header(headers: Seq<HeaderEntry>, name: Seq<char>) -> Option<int> {
    if exists|i: int| 0 <= i < headers.len() && (#[trigger] headers[i]).name@ == name {
        let i = choose|i: int|
            0 <= i < headers.len() && (#[trigger] headers[i]).name@ == name && forall|j: int|
                0 <= j < i ==> (#[trigger] headers[j]).name@ != name;
        Some(i)
    } else {
        None
    }
}

/// No two headers share a name.
pub open spec fn distinct_names(headers: Seq<HeaderEntry>) -> bool {
    forall|i: int, j: int|
        0 <= i < j < headers.len() ==> (#[trigger] headers[i]).name@ != (#[trigger] headers[j]).name@
}

/// Whether no two of the headers share a name.
pub fn has_distinct_names(headers: &Vec<HeaderEntry>) -> (r: bool)
    ensures
        r == distinct_names(headers@),
{
    let n = headers.len();
    let mut j: usize = 0;
    while j < n
        invariant
            n == headers@.len(),
            j <= n,
            forall|a: int, b: int|
                0 <= a < b < j ==> (#[trigger] headers@[a]).name@ != (#[trigger] headers@[b]).name@,
        decreases n - j,
    {
        let mut i: usize = 0;
        while i < j
            invariant
                n == headers@.len(),
                i <= j < n,
                forall|a: int, b: int|
                    0 <= a < b < j ==> (#[trigger] headers@[a]).name@ != (#[trigger] headers@[b]).name@,
                forall|a: int| 0 <= a < i ==> (#[trigger] headers@[a]).name@ != headers@[j as int].name@,
            decreases j - i,
        {
            if headers[i].name == headers[j].name {
                return false;
            }
            i = i + 1;
        }
        j = j + 1;
    }
    true
}

pub fn is_valid_header_name(name: &str) -> (r: bool)
    ensures
        r == is_header_name(name@),
{
    let n = name.unicode_len();
    let mut i: usize = 0;
    while i < n
        invariant
            n == name@.len(),
            i <= n,
            forall|j: int| 0 <= j < i ==> header_name_char(#[trigger] name@[j]),
        decreases n - i,
    {
        let c = name.get_char(i);
        let low = (c as u32) % 256;
        if c == ':' || low < 33 || low > 126 {
            return false;
        }
        i = i + 1;
    }
    true
}

/// A message received from the messaging client.
#[derive(Debug)]
pub struct AsyncNatsMessage {
    subject: String,
    reply: Option<String>,
    payload: Vec<u8>,
    headers: Option<Vec<HeaderEntry>>,
    status: Option<u16>,
    description: Option<String>,
    length: u64,
}

/// A message as a mathematical value.
pub struct MessageView {
    pub subject: Seq<char>,
    pub reply: Option<Seq<char>>,
    pub payload: Seq<u8>,
    pub headers: Option<Seq<HeaderEntry>>,
    pub status: Option<u16>,
    pub description: Option<Seq<char>>,
    pub length: nat,
}

pub open spec fn opt_view(s: Option<String>) -> Option<Seq<char>> {
    match s {
        Some(t) => Some(t@),
        None => None,
    }
}

impl View for AsyncNatsMessage {
    type V = MessageView;

    closed spec fn view(&self) -> MessageView {
        MessageView {
            subject: self.subject@,
            reply: opt_view(self.reply),
            payload: self.payload@,
            headers: match self.headers {
                Some(h) => Some(h@),
                None => None,
            },
            status: self.status,
            description: opt_view(self.description),
            length: self.length as nat,
        }
    }
}

impl AsyncNatsMessage {
    /// A status code is never zero, which stands for no status; no two
    /// headers share a name.
    #[verifier::type_invariant]
    closed spec fn inv(&self) -> bool {
        &&& self.status != Some(0u16)
        &&& self.headers matches Some(h) ==> distinct_names(h@)
    }

    pub fn new(
        subject: String,
        reply: Option<String>,
        payload: Vec<u8>,
        headers: Option<Vec<HeaderEntry>>,
        status: Option<u16>,
        description: Option<String>,
        length: u64,
    ) -> (r: AsyncNatsMessage)
        requires
            status != Some(0u16),
            headers matches Some(h) ==> distinct_names(h@),
        ensures
            r@.subject == subject@,
            r@.reply == opt_view(reply),
            r@.payload == payload@,
            r@.headers == (match headers {
                Some(h) => Some(h@),
                None => None::<Seq<HeaderEntry>>,
            }),
            r@.status == status,
            r@.description == opt_view(description),
            r@.length == length as nat,
    {
        AsyncNatsMessage { subject, reply, payload, headers, status, description, length }
    }

    /// The topic the message was published on.
    pub fn topic(&self) -> (r: &String)
        ensures
            r@ == self@.subject,
    {
        &self.subject
    }

    /// The payload, byte for byte as published.
    pub fn data(&self) -> (r: &Vec<u8>)
        ensures
            r@ == self@.payload,
    {
        &self.payload
    }

    pub fn reply_to(&self) -> (r: Option<&String>)
        ensures
            r matches Some(s) ==> self@.reply == Some(s@),
            r is None <==> self@.reply is None,
    {
        match &self.reply {
            Some(s) => Some(s),
            None => None,
        }
    }

    pub fn has_headers(&self) -> (r: bool)
        ensures
            r == self@.headers is Some,
    {
        self.headers.is_some()
    }

    /// The status code, or zero when the message carries none.
    pub fn status(&self) -> (r: u16)
        ensures
            r == match self@.status {
                Some(c) => c,
                None => 0,
            },
            r == 0 <==> self@.status is None,
    {
        proof {
            use_type_invariant(self);
        }
        match self.status {
            Some(c) => c,
            None => 0,
        }
    }

    pub fn description(&self) -> (r: Option<&String>)
        ensures
            r matches Some(s) ==> self@.description == Some(s@),
            r is None <==> self@.description is None,
    {
        match &self.description {
            Some(s) => Some(s),
            None => None,
        }
    }

    /// Length of the message over the wire.
    pub fn length(&self) -> (r: u64)
        ensures
            r as nat == self@.length,
    {
        self.length
    }

    /// Number of distinct header names; zero when the message has no headers.
    pub fn header_count(&self) -> (r: usize)
        ensures
            r == match self@.headers {
                Some(h) => h.len(),
                None => 0,
            },
    {
        match &self.headers {
            Some(h) => h.len(),
            None => 0,
        }
    }

    /// The header at index `i` of the message's headers.
    pub fn header_at(&self, i: usize) -> (r: &HeaderEntry)
        requires
            self@.headers matches Some(h) && i < h.len(),
        ensures
            self@.headers matches Some(h) && *r == h[i as int],
    {
        let h = self.headers.as_ref().unwrap();
        &h[i]
    }

    /// Looks a header up by name: `None` when the message has no headers,
    /// when `name` is not a valid header name, or when no header has that
    /// name; otherwise the index of the first header with that name.
    pub fn find_header(&self, name: &str) -> (r: Option<usize>)
        ensures
            r == match self@.headers {
                Some(h) => if is_header_name(name@) {
                    match first_header(h, name@) {
                        Some(i) => Some(i as usize),
                        None => None,
                    }
                } else {
                    None
                },
                None => None::<usize>,
            },
            r matches Some(i) ==> self@.headers matches Some(h) && i < h.len() && h[i as int].name@
                == name@ && forall|j: int| 0 <= j < i ==> (#[trigger] h[j]).name@ != name@,
    {
        let headers = match &self.headers {
            Some(h) => h,
            None => {
                return None;
            },
        };
        if !is_valid_header_name(name) {
            return None;
        }
        let key = String::from_str(name);
        let mut i: usize = 0;
        while i < headers.len()
            invariant
                self@.headers == Some(headers@),
                key@ == name@,
                is_header_name(name@),
                i <= headers@.len(),
                forall|j: int| 0 <= j < i ==> (#[trigger] headers@[j]).name@ != name@,
            decreases headers.len() - i,
        {
            if headers[i].name == key {
                proof {
                    let h = headers@;
                    assert(h[i as int].name@ == name@);
                    assert(forall|j: int| 0 <= j < i ==> (#[trigger] h[j]).name@ != name@);
                    assert(exists|k: int|
                        0 <= k < h.len() && (#[trigger] h[k]).name@ == name@ && forall|j: int|
                            0 <= j < k ==> (#[trigger] h[j]).name@ != name@);
                    let k = choose|k: int|
                        0 <= k < h.len() && (#[trigger] h[k]).name@ == name@ && forall|j: int|
                            0 <= j < k ==> (#[trigger] h[j]).name@ != name@;
                    assert(k == i as int) by {
                        if k < i as int {
                        } else if k > i as int {
                            assert(h[i as int].name@ != name@);
                        }
                    }
                }
                return Some(i);
            }
            i = i + 1;
        }
        None
    }
}

/// A cursor over the headers of one message.
pub struct AsyncNatsHeaderIterator {
    next: usize,
    current: Option<usize>,
}

impl AsyncNatsHeaderIterator {
    /// The cursor is usable with a message that has `n` headers.
    pub open spec fn valid_for(&self, n: nat) -> bool {
        &&& self.next_index() <= n
        &&& self.current_index() matches Some(c) ==> c < n
    }

    pub closed spec fn next_index(&self) -> nat {
        self.next as nat
    }

    pub closed spec fn current_index(&self) -> Option<nat> {
        match self.current {
            Some(c) => Some(c as nat),
            None => None,
        }
    }

    /// A cursor before the first header of a message.
    pub fn over_all() -> (r: AsyncNatsHeaderIterator)
        ensures
            r.next_index() == 0,
            r.current_index() is None,
    {
        AsyncNatsHeaderIterator { next: 0, current: None }
    }

    /// A cursor that stands on the header at `index` and has nothing after it.
    pub fn on_one(index: usize, count: usize) -> (r: AsyncNatsHeaderIterator)
        requires
            index < count,
        ensures
            r.next_index() == count,
            r.current_index() == Some(index as nat),
    {
        AsyncNatsHeaderIterator { next: count, current: Some(index) }
    }

    /// Moves to the next header of `msg`; returns whether there is one.
    pub fn advance(&mut self, msg: &AsyncNatsMessage) -> (r: bool)
        requires
            old(self).valid_for(msg@.headers.unwrap_or(Seq::empty()).len()),
        ensures
            final(self).valid_for(msg@.headers.unwrap_or(Seq::empty()).len()),
            r == (old(self).next_index() < msg@.headers.unwrap_or(Seq::empty()).len()),
            r ==> final(self).current_index() == Some(old(self).next_index())
                && final(self).next_index() == old(self).next_index() + 1,
            !r ==> final(self).current_index() is None && final(self).next_index()
                == old(self).next_index(),
    {
        let n = msg.header_count();
        if self.next < n {
            self.current = Some(self.next);
            self.next = self.next + 1;
            true
        } else {
            self.current = None;
            false
        }
    }

    /// Index of the header the cursor stands on.
    pub fn current(&self) -> (r: Option<usize>)
        ensures
            r matches Some(c) ==> self.current_index() == Some(c as nat),
            r is None <==> self.current_index() is None,
    {
        self.current
    }

    /// Name of the header the cursor stands on.
    pub fn key<'a>(&self, msg: &'a AsyncNatsMessage) -> (r: &'a String)
        requires
            self.current_index() matches Some(c) && msg@.headers matches Some(h) && c < h.len(),
        ensures
            r@ == msg@.headers.unwrap()[self.current_index().unwrap() as int].name@,
    {
        let c = self.current.unwrap();
        &msg.header_at(c).name
    }

    /// Number of values of the header the cursor stands on.
    pub fn value_count(&self, msg: &AsyncNatsMessage) -> (r: usize)
        requires
            self.current_index() matches Some(c) && msg@.headers matches Some(h) && c < h.len(),
        ensures
            r == msg@.headers.unwrap()[self.current_index().unwrap() as int].values@.len(),
    {
        let c = self.current.unwrap();
        msg.header_at(c).values.len()
    }

    /// The `index`-th value of the header the cursor stands on.
    pub fn value_at<'a>(&self, msg: &'a AsyncNatsMessage, index: usize) -> (r: &'a String)
        requires
            self.current_index() matches Some(c) && msg@.headers matches Some(h) && c < h.len()
                && index < h[c as int].values@.len(),
        ensures
            r@ == msg@.headers.unwrap()[self.current_index().unwrap() as int].values@[index as int]@,
    {
        let c = self.current.unwrap();
        &msg.header_at(c).values[index]
    }
}

} // verus!
