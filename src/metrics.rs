//! Request and response counters and their text report.
use vstd::prelude::*;
use crate::server::{decimal, decimal_text};

verus! {

#[verifier::external_type_specification]
#[verifier::external_body]
pub struct ExInstant(std::time::Instant);

/// Relies on `Instant::now`: the current instant of the monotonic clock.
#[verifier::external_body]
fn instant_now() -> (r: std::time::Instant) {
    std::time::Instant::now()
}

/// Relies on `Instant::elapsed`: the time since `start`.
#[verifier::external_body]
fn instant_elapsed(start: &std::time::Instant) -> (r: std::time::Duration) {
    start.elapsed()
}

/// Relies on `Duration::as_secs`: the whole seconds of `d`.
#[verifier::external_body]
fn duration_secs(d: &std::time::Duration) -> (r: u64) {
    d.as_secs()
}

/// Counters of a running server.
pub struct Metrics {
    requests: u64,
    responses: u64,
    status_2xx: u64,
    status_3xx: u64,
    status_4xx: u64,
    status_5xx: u64,
    bytes_sent: u64,
    bytes_received: u64,
    start_time: std::time::Instant,
}

/// The counters' values, in the order of the report.
pub struct Counts {
    pub requests: u64,
    pub responses: u64,
    pub status_2xx: u64,
    pub status_3xx: u64,
    pub status_4xx: u64,
    pub status_5xx: u64,
    pub bytes_sent: u64,
    pub bytes_received: u64,
}

/// `a + b` wrapped to 64 bits, as the counters count.
pub open spec fn add_wrapping(a: u64, b: u64) -> u64 {
    ((a as int + b as int) % 0x1_0000_0000_0000_0000) as u64
}

/// The counters after a response with `status` and `size` bytes: the
/// response and byte counters grow, and the counter of the status class,
/// if it is one of 2xx to 5xx.
pub open spec fn after_response(c: Counts, status: u16, size: u64) -> Counts {
    let class = status / 100;
    Counts {
        requests: c.requests,
        responses: add_wrapping(c.responses, 1),
        status_2xx: if class == 2 { add_wrapping(c.status_2xx, 1) } else { c.status_2xx },
        status_3xx: if class == 3 { add_wrapping(c.status_3xx, 1) } else { c.status_3xx },
        status_4xx: if class == 4 { add_wrapping(c.status_4xx, 1) } else { c.status_4xx },
        status_5xx: if class == 5 { add_wrapping(c.status_5xx, 1) } else { c.status_5xx },
        bytes_sent: add_wrapping(c.bytes_sent, size),
        bytes_received: c.bytes_received,
    }
}

/// An uptime of `secs` seconds as `{days}d {hours}h {minutes}m {seconds}s`.
pub open spec fn uptime_text(secs: u64) -> Seq<char> {
    decimal_text((secs / 86400) as nat) + "d "@ + decimal_text(((secs % 86400) / 3600) as nat)
        + "h "@ + decimal_text(((secs % 3600) / 60) as nat) + "m "@ + decimal_text(
        (secs % 60) as nat,
    ) + "s"@
}

/// The report of counters `c` after an uptime of `secs` seconds.
pub open spec fn report_text(c: Counts, secs: u64) -> Seq<char> {
    "Server Metrics:\n - Uptime: "@ + uptime_text(secs) + "\n - Requests: "@ + decimal_text(
        c.requests as nat,
    ) + "\n - Responses: "@ + decimal_text(c.responses as nat) + "\n - 2xx Responses: "@
        + decimal_text(c.status_2xx as nat) + "\n - 3xx Responses: "@ + decimal_text(
        c.status_3xx as nat,
    ) + "\n - 4xx Responses: "@ + decimal_text(c.status_4xx as nat) + "\n - 5xx Responses: "@
        + decimal_text(c.status_5xx as nat) + "\n - Bytes Sent: "@ + decimal_text(
        c.bytes_sent as nat,
    ) + "\n - Bytes Received: "@ + decimal_text(c.bytes_received as nat) + "\n"@
}

/// Appends `label` and the decimal digits of `n`.
fn append_count(s: &mut String, label: &str, n: u64)
    ensures
        final(s)@ == old(s)@ + label@ + decimal_text(n as nat),
{
    s.append(label);
    let d = decimal(n);
    s.append(d.as_str());
}

/// An uptime of `secs` seconds as text.
fn uptime_string(secs: u64) -> (r: String)
    ensures
        r@ == uptime_text(secs),
{
    let mut s = decimal(secs / 86400);
    append_count(&mut s, "d ", (secs % 86400) / 3600);
    append_count(&mut s, "h ", (secs % 3600) / 60);
    append_count(&mut s, "m ", secs % 60);
    s.append("s");
    s
}

impl Metrics {
    /// The current counter values.
    pub closed spec fn counts(&self) -> Counts {
        Counts {
            requests: self.requests,
            responses: self.responses,
            status_2xx: self.status_2xx,
            status_3xx: self.status_3xx,
            status_4xx: self.status_4xx,
            status_5xx: self.status_5xx,
            bytes_sent: self.bytes_sent,
            bytes_received: self.bytes_received,
        }
    }

    /// All counters at zero, the clock started now.
    pub fn new() -> (r: Self)
        ensures
            r.counts() == (Counts {
                requests: 0,
                responses: 0,
                status_2xx: 0,
                status_3xx: 0,
                status_4xx: 0,
                status_5xx: 0,
                bytes_sent: 0,
                bytes_received: 0,
            }),
    {
        Metrics {
            requests: 0,
            responses: 0,
            status_2xx: 0,
            status_3xx: 0,
            status_4xx: 0,
            status_5xx: 0,
            bytes_sent: 0,
            bytes_received: 0,
            start_time: instant_now(),
        }
    }

    /// Counts a request of `size` bytes.
    pub fn record_request(&mut self, size: u64)
        ensures
            final(self).counts() == (Counts {
                requests: add_wrapping(old(self).counts().requests, 1),
                bytes_received: add_wrapping(old(self).counts().bytes_received, size),
                ..old(self).counts()
            }),
    {
        self.requests = self.requests.wrapping_add(1);
        self.bytes_received = self.bytes_received.wrapping_add(size);
    }

    /// Counts a response with `status` of `size` bytes.
    pub fn record_response(&mut self, status: u16, size: u64)
        ensures
            final(self).counts() == after_response(old(self).counts(), status, size),
    {
        self.responses = self.responses.wrapping_add(1);
        self.bytes_sent = self.bytes_sent.wrapping_add(size);
        let class = status / 100;
        if class == 2 {
            self.status_2xx = self.status_2xx.wrapping_add(1);
        } else if class == 3 {
            self.status_3xx = self.status_3xx.wrapping_add(1);
        } else if class == 4 {
            self.status_4xx = self.status_4xx.wrapping_add(1);
        } else if class == 5 {
            self.status_5xx = self.status_5xx.wrapping_add(1);
        }
    }

    /// Requests counted.
    pub fn get_requests(&self) -> (r: u64)
        ensures
            r == self.counts().requests,
    {
        self.requests
    }

    /// Responses counted.
    pub fn get_responses(&self) -> (r: u64)
        ensures
            r == self.counts().responses,
    {
        self.responses
    }

    /// 2xx responses counted.
    pub fn get_status_2xx(&self) -> (r: u64)
        ensures
            r == self.counts().status_2xx,
    {
        self.status_2xx
    }

    /// 3xx responses counted.
    pub fn get_status_3xx(&self) -> (r: u64)
        ensures
            r == self.counts().status_3xx,
    {
        self.status_3xx
    }

    /// 4xx responses counted.
    pub fn get_status_4xx(&self) -> (r: u64)
        ensures
            r == self.counts().status_4xx,
    {
        self.status_4xx
    }

    /// 5xx responses counted.
    pub fn get_status_5xx(&self) -> (r: u64)
        ensures
            r == self.counts().status_5xx,
    {
        self.status_5xx
    }

    /// Bytes sent.
    pub fn get_bytes_sent(&self) -> (r: u64)
        ensures
            r == self.counts().bytes_sent,
    {
        self.bytes_sent
    }

    /// Bytes received.
    pub fn get_bytes_received(&self) -> (r: u64)
        ensures
            r == self.counts().bytes_received,
    {
        self.bytes_received
    }

    /// Time since the counters were created.
    pub fn get_uptime(&self) -> std::time::Duration {
        instant_elapsed(&self.start_time)
    }

    /// The report of the counters after an uptime of `uptime_secs` seconds.
    pub fn report_for(&self, uptime_secs: u64) -> (r: String)
        ensures
            r@ == report_text(self.counts(), uptime_secs),
    {
        let mut s = "Server Metrics:\n - Uptime: ".to_owned();
        let up = uptime_string(uptime_secs);
        s.append(up.as_str());
        append_count(&mut s, "\n - Requests: ", self.requests);
        append_count(&mut s, "\n - Responses: ", self.responses);
        append_count(&mut s, "\n - 2xx Responses: ", self.status_2xx);
        append_count(&mut s, "\n - 3xx Responses: ", self.status_3xx);
        append_count(&mut s, "\n - 4xx Responses: ", self.status_4xx);
        append_count(&mut s, "\n - 5xx Responses: ", self.status_5xx);
        append_count(&mut s, "\n - Bytes Sent: ", self.bytes_sent);
        append_count(&mut s, "\n - Bytes Received: ", self.bytes_received);
        s.append("\n");
        s
    }

    /// The report of the counters and the uptime so far.
    pub fn get_report(&self) -> (r: String)
        ensures
            exists|secs: u64| r@ == report_text(self.counts(), secs),
    {
        let uptime = self.get_uptime();
        let secs = duration_secs(&uptime);
        self.report_for(secs)
    }
}

} // verus!
