use vstd::prelude::*;
use crate::headers::{header_lookup, HeaderList};
use crate::text::{parse_u64, parsed_u64};

verus! {

/// The period over which a rate limit counts requests.
#[derive(Clone, Copy, Debug, Default, PartialEq, Eq, Structural)]
pub enum TimePeriod {
    #[default]
    Second,
    Minute,
    Hour,
    Day,
}

/// The length of a period in milliseconds.
pub open spec fn period_ms(p: TimePeriod) -> int {
    match p {
        TimePeriod::Second => 1000,
        TimePeriod::Minute => 60_000,
        TimePeriod::Hour => 3_600_000,
        TimePeriod::Day => 86_400_000,
    }
}

/// The word a period takes in rate-limit header names.
pub open spec fn period_word(p: TimePeriod) -> Seq<char> {
    match p {
        TimePeriod::Second => "secondly"@,
        TimePeriod::Minute => "minute"@,
        TimePeriod::Hour => "hourly"@,
        TimePeriod::Day => "dayly"@,
    }
}

/// The header in which a server advertises its limit for a period.
pub open spec fn limit_header(p: TimePeriod) -> Seq<char> {
    match p {
        TimePeriod::Second => "x-secondly-ratelimit-limit"@,
        TimePeriod::Minute => "x-minute-ratelimit-limit"@,
        TimePeriod::Hour => "x-hourly-ratelimit-limit"@,
        TimePeriod::Day => "x-dayly-ratelimit-limit"@,
    }
}

impl TimePeriod {
    /// `secondly`, `minute`, `hourly` or `dayly`.
    pub fn to_string(&self) -> (r: String)
        ensures
            r@ == period_word(*self),
    {
        match self {
            TimePeriod::Second => String::from_str("secondly"),
            TimePeriod::Minute => String::from_str("minute"),
            TimePeriod::Hour => String::from_str("hourly"),
            TimePeriod::Day => String::from_str("dayly"),
        }
    }

    /// The length of the period in milliseconds.
    pub fn millis(&self) -> (r: i64)
        ensures
            r == period_ms(*self),
    {
        match self {
            TimePeriod::Second => 1000,
            TimePeriod::Minute => 60_000,
            TimePeriod::Hour => 3_600_000,
            TimePeriod::Day => 86_400_000,
        }
    }

    /// The name of the header that advertises a limit for this period.
    pub fn limit_header(&self) -> (r: String)
        ensures
            r@ == limit_header(*self),
    {
        match self {
            TimePeriod::Second => String::from_str("x-secondly-ratelimit-limit"),
            TimePeriod::Minute => String::from_str("x-minute-ratelimit-limit"),
            TimePeriod::Hour => String::from_str("x-hourly-ratelimit-limit"),
            TimePeriod::Day => String::from_str("x-dayly-ratelimit-limit"),
        }
    }

    /// Every period, shortest first.
    pub fn all() -> (r: Vec<TimePeriod>)
        ensures
            r@ == seq![TimePeriod::Second, TimePeriod::Minute, TimePeriod::Hour, TimePeriod::Day],
    {
        let r = vec![TimePeriod::Second, TimePeriod::Minute, TimePeriod::Hour, TimePeriod::Day];
        assert(r@ =~= seq![TimePeriod::Second, TimePeriod::Minute, TimePeriod::Hour, TimePeriod::Day]);
        r
    }
}

/// A budget of `limit` requests for each window of one `period`. `timer` is
/// the start of the current window, in milliseconds since the Unix epoch.
#[derive(Clone, Copy, Debug)]
pub struct RateLimiter {
    pub limit: u32,
    pub remaining: u32,
    pub period: TimePeriod,
    pub is_adaptive: bool,
    pub timer: i64,
}

/// Whether the window that started at `rl.timer` is over at `now`.
pub open spec fn window_over(rl: RateLimiter, now: int) -> bool {
    now - rl.timer >= period_ms(rl.period)
}

/// The limiter at `now`: a new window with the whole budget once the last one
/// is over.
pub open spec fn refreshed(rl: RateLimiter, now: int) -> RateLimiter {
    if window_over(rl, now) {
        RateLimiter { timer: now as i64, remaining: rl.limit, ..rl }
    } else {
        rl
    }
}

/// Whether a request at `now` gets a slot.
pub open spec fn granted(rl: RateLimiter, now: int) -> bool {
    refreshed(rl, now).remaining > 0
}

/// The limiter after a request at `now`: one unit less when granted.
pub open spec fn after_request(rl: RateLimiter, now: int) -> RateLimiter {
    let r = refreshed(rl, now);
    if r.remaining > 0 {
        RateLimiter { remaining: (r.remaining - 1) as u32, ..r }
    } else {
        r
    }
}

/// How long a refused request waits: the rest of the window, at most one period.
pub open spec fn wait_after(rl: RateLimiter, now: int) -> int {
    let r = refreshed(rl, now);
    let rest = r.timer + period_ms(r.period) - now;
    if rest < period_ms(r.period) { rest } else { period_ms(r.period) }
}

/// The limit a response advertises for period `p`, when the header is there
/// and holds a number that fits in `u32`.
pub open spec fn advertised(headers: Seq<(Seq<char>, Seq<char>)>, p: TimePeriod) -> Option<u32> {
    match header_lookup(headers, limit_header(p)) {
        Option::Some(v) => match parsed_u64(v) {
            Option::Some(n) => if n <= u32::MAX { Option::Some(n as u32) } else { Option::None },
            Option::None => Option::None,
        },
        Option::None => Option::None,
    }
}

/// `best` or the candidate `(n, p)`, whichever has the lower limit; on a
/// tie, `best`.
pub open spec fn lower_of(best: Option<(u32, TimePeriod)>, cand: Option<u32>, p: TimePeriod) -> Option<(u32, TimePeriod)> {
    match cand {
        Option::None => best,
        Option::Some(n) => match best {
            Option::None => Option::Some((n, p)),
            Option::Some(b) => if n < b.0 { Option::Some((n, p)) } else { best },
        },
    }
}

/// The lowest limit the headers advertise, with its period; on a tie, the
/// shorter period.
pub open spec fn strictest(headers: Seq<(Seq<char>, Seq<char>)>) -> Option<(u32, TimePeriod)> {
    let a = lower_of(Option::None, advertised(headers, TimePeriod::Second), TimePeriod::Second);
    let b = lower_of(a, advertised(headers, TimePeriod::Minute), TimePeriod::Minute);
    let c = lower_of(b, advertised(headers, TimePeriod::Hour), TimePeriod::Hour);
    lower_of(c, advertised(headers, TimePeriod::Day), TimePeriod::Day)
}

/// The limiter after reading a response's headers: an adaptive limiter takes
/// the strictest advertised limit and its period when it is below its own.
pub open spec fn updated(rl: RateLimiter, headers: Seq<(Seq<char>, Seq<char>)>) -> RateLimiter {
    if !rl.is_adaptive {
        rl
    } else {
        match strictest(headers) {
            Option::Some(s) => if s.0 < rl.limit {
                RateLimiter { limit: s.0, period: s.1, ..rl }
            } else {
                rl
            },
            Option::None => rl,
        }
    }
}

/// Relies on `chrono::Utc::now`: the current time in milliseconds since the
/// Unix epoch.
#[verifier::external_body]
pub(crate) fn now_millis() -> (r: i64) {
    chrono::Utc::now().timestamp_millis()
}

impl RateLimiter {
    /// A limiter of `limit` requests per `period`, adaptive, with its whole
    /// budget and a window that starts now.
    pub fn new(limit: u32, period: TimePeriod) -> (r: RateLimiter)
        ensures
            r.limit == limit,
            r.remaining == limit,
            r.period == period,
            r.is_adaptive,
    {
        RateLimiter::starting_at(limit, period, now_millis())
    }

    /// A limiter of `limit` requests per `period`, adaptive, with its whole
    /// budget and a window that starts at `now`.
    pub fn starting_at(limit: u32, period: TimePeriod, now: i64) -> (r: RateLimiter)
        ensures
            r == (RateLimiter { limit, remaining: limit, period, is_adaptive: true, timer: now }),
    {
        RateLimiter { limit, remaining: limit, period, is_adaptive: true, timer: now }
    }

    /// Whether the limiter follows the limits that servers advertise.
    pub fn is_adaptive(self, is_adaptive: bool) -> (r: RateLimiter)
        ensures
            r == (RateLimiter { is_adaptive, ..self }),
    {
        RateLimiter { is_adaptive, ..self }
    }

    /// Asks for a slot at `now`: 0 when one is granted and taken, else the
    /// number of milliseconds to wait before asking again.
    pub fn request_at(&mut self, now: i64) -> (wait: u64)
        ensures
            *final(self) == after_request(*old(self), now as int),
            granted(*old(self), now as int) ==> wait == 0,
            !granted(*old(self), now as int) ==> wait == wait_after(*old(self), now as int) && wait > 0,
    {
        let period = self.period.millis();
        let elapsed: i128 = (now as i128) - (self.timer as i128);
        if elapsed >= period as i128 {
            self.timer = now;
            self.remaining = self.limit;
        }
        if self.remaining > 0 {
            self.remaining = self.remaining - 1;
            0
        } else {
            let rest: i128 = (self.timer as i128) + (period as i128) - (now as i128);
            if rest < period as i128 {
                rest as u64
            } else {
                period as u64
            }
        }
    }

    /// Reads the limits a response advertises, as `updated` describes.
    pub fn update(&mut self, headers: &HeaderList)
        ensures
            *final(self) == updated(*old(self), headers@),
    {
        if !self.is_adaptive {
            return;
        }
        let periods = TimePeriod::all();
        let mut best: Option<(u32, TimePeriod)> = None;
        let mut i: usize = 0;
        while i < periods.len()
            invariant
                periods@ == seq![TimePeriod::Second, TimePeriod::Minute, TimePeriod::Hour, TimePeriod::Day],
                i <= 4,
                i == 0 ==> best == Option::<(u32, TimePeriod)>::None,
                i == 1 ==> best == lower_of(Option::None, advertised(headers@, TimePeriod::Second), TimePeriod::Second),
                i == 2 ==> best == lower_of(
                    lower_of(Option::None, advertised(headers@, TimePeriod::Second), TimePeriod::Second),
                    advertised(headers@, TimePeriod::Minute), TimePeriod::Minute),
                i == 3 ==> best == lower_of(lower_of(
                    lower_of(Option::None, advertised(headers@, TimePeriod::Second), TimePeriod::Second),
                    advertised(headers@, TimePeriod::Minute), TimePeriod::Minute),
                    advertised(headers@, TimePeriod::Hour), TimePeriod::Hour),
                i == 4 ==> best == strictest(headers@),
            decreases 4 - i,
        {
            let p = periods[i];
            let cand = self.advertised_limit(headers, p);
            match cand {
                Some(n) => {
                    match best {
                        Some(b) => {
                            if n < b.0 {
                                best = Some((n, p));
                            }
                        },
                        None => {
                            best = Some((n, p));
                        },
                    }
                },
                None => {},
            }
            i = i + 1;
        }
        match best {
            Some(b) => {
                if b.0 < self.limit {
                    self.limit = b.0;
                    self.period = b.1;
                }
            },
            None => {},
        }
    }

    /// The limit the headers advertise for `p`, as `advertised` describes.
    fn advertised_limit(&self, headers: &HeaderList, p: TimePeriod) -> (r: Option<u32>)
        ensures
            r == advertised(headers@, p),
    {
        let name = p.limit_header();
        match headers.get(name.as_str()) {
            Some(v) => match parse_u64(v.as_str()) {
                Some(n) => if n <= u32::MAX as u64 { Some(n as u32) } else { None },
                None => None,
            },
            None => None,
        }
    }
}

/// The limiter after requests at the times `ts`, in order.
pub open spec fn run(rl: RateLimiter, ts: Seq<i64>) -> RateLimiter
    decreases ts.len(),
{
    if ts.len() == 0 {
        rl
    } else {
        after_request(run(rl, ts.drop_last()), ts.last() as int)
    }
}

/// The times of the requests among `ts` that got a slot, in order.
pub open spec fn grants(rl: RateLimiter, ts: Seq<i64>) -> Seq<i64>
    decreases ts.len(),
{
    if ts.len() == 0 {
        Seq::empty()
    } else {
        let g = grants(rl, ts.drop_last());
        if granted(run(rl, ts.drop_last()), ts.last() as int) {
            g.push(ts.last())
        } else {
            g
        }
    }
}

/// The times never go back, and none is before `start`.
pub open spec fn times_from(ts: Seq<i64>, start: int) -> bool {
    &&& forall|i: int| 0 <= i < ts.len() ==> start <= #[trigger] ts[i]
    &&& forall|i: int, j: int| 0 <= i <= j < ts.len() ==> ts[i] <= ts[j]
}

proof fn lemma_run_windows(rl: RateLimiter, ts: Seq<i64>) -> (w: nat)
    requires
        rl.remaining <= rl.limit,
        times_from(ts, rl.timer as int),
    ensures
        run(rl, ts).limit == rl.limit,
        run(rl, ts).period == rl.period,
        run(rl, ts).remaining <= rl.limit,
        run(rl, ts).timer >= rl.timer,
        ts.len() > 0 ==> run(rl, ts).timer <= ts.last(),
        run(rl, ts).timer >= rl.timer + w * period_ms(rl.period),
        grants(rl, ts).len() + run(rl, ts).remaining <= (w + 1) * rl.limit,
        forall|k: nat| k * rl.limit < grants(rl, ts).len()
            ==> #[trigger] grants(rl, ts)[k * rl.limit] >= rl.timer + k * period_ms(rl.period),
    decreases ts.len(),
{
    if ts.len() == 0 {
        assert(grants(rl, ts).len() == 0);
        let z: nat = 0;
        assert((z + 1) * rl.limit == rl.limit) by (nonlinear_arith)
            requires z == 0;
        assert forall|k: nat| k * rl.limit < grants(rl, ts).len()
            implies #[trigger] grants(rl, ts)[k * rl.limit] >= rl.timer + k * period_ms(rl.period) by {}
        z
    } else {
        let pre = ts.drop_last();
        assert(times_from(pre, rl.timer as int)) by {
            assert forall|i: int| 0 <= i < pre.len() implies rl.timer <= #[trigger] pre[i] by {
                assert(pre[i] == ts[i]);
            }
            assert forall|i: int, j: int| 0 <= i <= j < pre.len() implies pre[i] <= pre[j] by {
                assert(pre[i] == ts[i] && pre[j] == ts[j]);
            }
        }
        let w0 = lemma_run_windows(rl, pre);
        let s = run(rl, pre);
        let t = ts.last() as int;
        let g = grants(rl, pre);
        let l = rl.limit as int;
        let p = period_ms(rl.period);
        assert(s.timer <= t) by {
            if pre.len() > 0 {
                assert(pre.last() == ts[ts.len() - 2]);
            }
        }
        let w: nat = if window_over(s, t) { w0 + 1 } else { w0 };
        let s1 = refreshed(s, t);
        assert(s1.timer >= rl.timer + w * p) by (nonlinear_arith)
            requires
                window_over(s, t) ==> s1.timer == t && t - s.timer >= p,
                !window_over(s, t) ==> s1.timer == s.timer,
                s.timer >= rl.timer + w0 * p,
                w == (if window_over(s, t) { w0 + 1 } else { w0 }),
        ;
        assert(g.len() + s1.remaining <= (w + 1) * l) by (nonlinear_arith)
            requires
                window_over(s, t) ==> s1.remaining == l,
                !window_over(s, t) ==> s1.remaining == s.remaining,
                g.len() + s.remaining <= (w0 + 1) * l,
                s.remaining >= 0,
                w == (if window_over(s, t) { w0 + 1 } else { w0 }),
        ;
        let gs = grants(rl, ts);
        assert(run(rl, ts) == after_request(s, t));
        if granted(s, t) {
            assert(gs == g.push(ts.last()));
            assert(run(rl, ts).remaining == s1.remaining - 1);
            assert forall|k: nat| k * rl.limit < gs.len()
                implies #[trigger] gs[k * rl.limit] >= rl.timer + k * period_ms(rl.period) by {
                if k * l < g.len() {
                    assert(gs[k * l] == g[k * l]);
                } else {
                    assert(k * l == g.len());
                    assert(k <= w) by (nonlinear_arith)
                        requires
                            k * l == g.len(),
                            g.len() + s1.remaining <= (w + 1) * l,
                            s1.remaining >= 1,
                            l >= 1,
                    ;
                    assert(k * p <= w * p) by (nonlinear_arith)
                        requires k <= w, p >= 0;
                }
            }
        } else {
            assert(gs == g);
        }
        w
    }
}

/// No window of one period grants more than `limit` requests: over requests
/// at times that never go back and start no earlier than the window of a
/// limiter with at most its whole budget left, the request granted as number
/// `k * limit` (counting from zero) comes at least `k` periods after the
/// start of that window.
pub proof fn lemma_grants_spread(rl: RateLimiter, ts: Seq<i64>, k: nat)
    requires
        rl.remaining <= rl.limit,
        times_from(ts, rl.timer as int),
        k * rl.limit < grants(rl, ts).len(),
    ensures
        grants(rl, ts)[k * rl.limit] >= rl.timer + k * period_ms(rl.period),
{
    lemma_run_windows(rl, ts);
}

/// An adaptive limiter that reads a response ends at or below each limit the
/// response advertises and at or below its own limit; a limit it lowers is
/// one of the advertised ones, together with its period.
pub proof fn lemma_update_adopts_lowest(rl: RateLimiter, headers: Seq<(Seq<char>, Seq<char>)>)
    requires
        rl.is_adaptive,
    ensures
        forall|p: TimePeriod| #[trigger] advertised(headers, p) is Some
            ==> updated(rl, headers).limit <= advertised(headers, p)->Some_0,
        updated(rl, headers).limit <= rl.limit,
        updated(rl, headers).limit < rl.limit ==> advertised(headers, updated(rl, headers).period)
            == Option::Some(updated(rl, headers).limit),
{
    assert forall|p: TimePeriod| #[trigger] advertised(headers, p) is Some
        implies updated(rl, headers).limit <= advertised(headers, p)->Some_0 by {
        match p {
            TimePeriod::Second => {},
            TimePeriod::Minute => {},
            TimePeriod::Hour => {},
            TimePeriod::Day => {},
        }
    }
}

} // verus!
