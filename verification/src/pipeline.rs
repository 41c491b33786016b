//! Ports of pipe components along a branch: which connection point of a
//! component is its arrival, its leave and its extra (branch) ports, and
//! the spans measured between them.
//!
//! Positions are floating point and stay with the caller: a port here names
//! where its position comes from (the component's arrival/leave pair, or one
//! of its connection points), and spans name their two ends.
use vstd::prelude::*;

verus! {

/// The role of a port of a pipe component.
#[derive(Clone, Copy, Debug, PartialEq, Eq, Structural)]
pub enum PortRole {
    Arrive,
    Leave,
    Extra,
}

/// Reads of pipeline segments along a branch.
#[derive(Clone, Copy, Debug, PartialEq, Eq, Structural)]
pub struct PipelineQueryService;

/// Where the position of a port comes from.
#[derive(Clone, Copy, Debug, PartialEq, Eq, Structural)]
pub enum PortSource {
    /// The arrival point of the component's arrival/leave pair.
    PairArrive,
    /// The leave point of the component's arrival/leave pair.
    PairLeave,
    /// The connection point at this index of the sorted points.
    Point(usize),
}

/// A port: its role, its number and where its position comes from.
#[derive(Clone, Copy, Debug, PartialEq, Eq, Structural)]
pub struct PortChoice {
    pub role: PortRole,
    pub number: i32,
    pub source: PortSource,
}

/// The ports of one component.
#[derive(Clone, Debug, PartialEq, Eq)]
pub struct PortPlan {
    pub arrive_number: Option<i32>,
    pub leave_number: Option<i32>,
    pub arrive: Option<PortChoice>,
    pub leave: Option<PortChoice>,
    pub extras: Vec<PortChoice>,
}

/// The number a port takes: the one given, else that of its point.
pub fn port_number(point_number: i32, given: Option<i32>) -> (r: i32)
    ensures
        r == match given {
            Some(n) => n,
            None => point_number,
        },
{
    match given {
        Some(n) => n,
        None => point_number,
    }
}

/// `Some(v)` when `a` is `None`, else `a`.
pub open spec fn or_some(a: Option<i32>, v: i32) -> Option<i32> {
    match a {
        Some(x) => Some(x),
        None => Some(v),
    }
}

/// The searches for a point: one with the arrival number (`0`), one with
/// the leave number but not the arrival number (`1`), one without the
/// arrival number (`2`).
pub open spec fn point_hit(mode: nat, an: Option<i32>, ln: Option<i32>, o: Option<i32>) -> bool {
    if mode == 0 {
        o == an
    } else if mode == 1 {
        o == ln && o != an
    } else {
        o != an
    }
}

/// The first index of `points` that the search `mode` finds.
pub open spec fn first_point(points: Seq<i32>, mode: nat, an: Option<i32>, ln: Option<i32>) -> Option<
    int,
>
    decreases points.len(),
{
    if points.len() == 0 {
        None
    } else {
        match first_point(points.drop_last(), mode, an, ln) {
            Some(k) => Some(k),
            None => if point_hit(mode, an, ln, Some(points.last())) {
                Some(points.len() - 1)
            } else {
                None
            },
        }
    }
}

/// The arrival and leave numbers after the pair is read: the numbers the
/// attributes give, else those of the pair.
pub open spec fn pair_numbers(
    arrive_attr: Option<i32>,
    leave_attr: Option<i32>,
    pair: Option<(i32, i32)>,
) -> (Option<i32>, Option<i32>) {
    match pair {
        Some((a, l)) => (or_some(arrive_attr, a), or_some(leave_attr, l)),
        None => (arrive_attr, leave_attr),
    }
}

/// The extra ports: every point whose number is neither the arrival nor
/// the leave number, in order.
pub open spec fn extra_ports(points: Seq<i32>, an: Option<i32>, ln: Option<i32>) -> Seq<PortChoice>
    decreases points.len(),
{
    if points.len() == 0 {
        Seq::empty()
    } else {
        let rest = extra_ports(points.drop_last(), an, ln);
        let m = points.last();
        if Some(m) != an && Some(m) != ln {
            rest.push(
                PortChoice {
                    role: PortRole::Extra,
                    number: m,
                    source: PortSource::Point((points.len() - 1) as usize),
                },
            )
        } else {
            rest
        }
    }
}

/// Extra ports keep apart from the given main ports: each extra port
/// carries a number other than the arrival and leave numbers it was chosen
/// against (in a plan, those the attributes or the pair give), and names a
/// connection point that has that number (the points being those of a
/// vector).
pub proof fn lemma_extra_ports_apart(points: Seq<i32>, an: Option<i32>, ln: Option<i32>)
    requires
        points.len() <= usize::MAX,
    ensures
        forall|i: int|
            0 <= i < extra_ports(points, an, ln).len() ==> {
                let e = #[trigger] extra_ports(points, an, ln)[i];
                &&& e.role == PortRole::Extra
                &&& Some(e.number) != an
                &&& Some(e.number) != ln
                &&& e.source matches PortSource::Point(k) && k < points.len() && points[k as int]
                    == e.number
            },
    decreases points.len(),
{
    if points.len() > 0 {
        let pre = points.drop_last();
        lemma_extra_ports_apart(pre, an, ln);
        let rest = extra_ports(pre, an, ln);
        let all = extra_ports(points, an, ln);
        assert forall|i: int| 0 <= i < rest.len() implies #[trigger] all[i] == rest[i] by {}
        assert forall|i: int| 0 <= i < rest.len() implies ((#[trigger] all[i]).source matches PortSource::Point(
            k,
        ) && k < points.len() && points[k as int] == all[i].number) by {
            let e = rest[i];
            assert(e.source matches PortSource::Point(k) && k < pre.len() && pre[k as int]
                == e.number);
        }
    }
}

/// The port of the point at index `k` in the role `role`.
pub open spec fn point_port(points: Seq<i32>, k: int, role: PortRole) -> PortChoice {
    PortChoice { role, number: points[k], source: PortSource::Point(k as usize) }
}

/// The ports of a component.
///
/// `arrive_attr` and `leave_attr` are the numbers its attributes give,
/// `pair` the numbers of its arrival/leave pair if it has one, and `points`
/// the numbers of its connection points sorted by number. The pair gives
/// both main ports, with the attribute numbers where there are some. Points
/// with the arrival number, then with the leave number, stand in for a main
/// port still missing; the other points are extra ports. Then a missing
/// arrival takes the first point, and a missing leave the first point whose
/// number differs from the arrival number.
pub open spec fn port_plan(
    arrive_attr: Option<i32>,
    leave_attr: Option<i32>,
    pair: Option<(i32, i32)>,
    points: Seq<i32>,
) -> (Option<i32>, Option<i32>, Option<PortChoice>, Option<PortChoice>, Seq<PortChoice>) {
    let (an, ln) = pair_numbers(arrive_attr, leave_attr, pair);
    let arrive1 = match pair {
        Some(_) => Some(
            PortChoice { role: PortRole::Arrive, number: an->0, source: PortSource::PairArrive },
        ),
        None => match first_point(points, 0, an, ln) {
            Some(k) => Some(point_port(points, k, PortRole::Arrive)),
            None => None,
        },
    };
    let leave1 = match pair {
        Some(_) => Some(
            PortChoice { role: PortRole::Leave, number: ln->0, source: PortSource::PairLeave },
        ),
        None => match first_point(points, 1, an, ln) {
            Some(k) => Some(point_port(points, k, PortRole::Leave)),
            None => None,
        },
    };
    let (an2, arrive2) = if arrive1 is None && points.len() > 0 {
        (Some(points[0]), Some(point_port(points, 0, PortRole::Arrive)))
    } else {
        (an, arrive1)
    };
    let (ln2, leave2) = if leave1 is None {
        match first_point(points, 2, an2, ln) {
            Some(k) => (Some(points[k]), Some(point_port(points, k, PortRole::Leave))),
            None => (ln, None),
        }
    } else {
        (ln, leave1)
    };
    (an2, ln2, arrive2, leave2, extra_ports(points, an, ln))
}

/// The plan as plain values.
pub open spec fn plan_view(p: PortPlan) -> (
    Option<i32>,
    Option<i32>,
    Option<PortChoice>,
    Option<PortChoice>,
    Seq<PortChoice>,
) {
    (p.arrive_number, p.leave_number, p.arrive, p.leave, p.extras@)
}

/// The first index of `points` that the search `mode` finds.
fn find_point(points: &Vec<i32>, an: Option<i32>, ln: Option<i32>, mode: u8) -> (r: Option<usize>)
    requires
        mode < 3,
    ensures
        r == (match first_point(points@, mode as nat, an, ln) {
            Some(k) => Some(k as usize),
            None => None,
        }),
        r matches Some(k) ==> k < points.len(),
        first_point(points@, mode as nat, an, ln) matches Some(k) ==> 0 <= k < points.len(),
{
    proof {
        lemma_first_point_range(points@, mode as nat, an, ln);
    }
    let mut i: usize = 0;
    while i < points.len()
        invariant
            i <= points.len(),
            mode < 3,
            first_point(points@.take(i as int), mode as nat, an, ln) is None,
        decreases points.len() - i,
    {
        let m = Some(points[i]);
        let hit = if mode == 0 {
            m == an
        } else if mode == 1 {
            m == ln && m != an
        } else {
            m != an
        };
        assert(points@.take(i + 1).drop_last() =~= points@.take(i as int));
        if hit {
            proof {
                lemma_first_point_prefix(points@, mode as nat, an, ln, i as int);
            }
            return Some(i);
        }
        i = i + 1;
    }
    assert(points@.take(points.len() as int) =~= points@);
    None
}

/// The first hit is an index of `points`, where the search hits.
proof fn lemma_first_point_range(points: Seq<i32>, mode: nat, an: Option<i32>, ln: Option<i32>)
    ensures
        first_point(points, mode, an, ln) matches Some(k) ==> 0 <= k < points.len()
            && point_hit(mode, an, ln, Some(points[k])),
    decreases points.len(),
{
    if points.len() > 0 {
        lemma_first_point_range(points.drop_last(), mode, an, ln);
    }
}

/// A hit right after a prefix with no hit is the first hit.
proof fn lemma_first_point_prefix(
    points: Seq<i32>,
    mode: nat,
    an: Option<i32>,
    ln: Option<i32>,
    i: int,
)
    requires
        0 <= i < points.len(),
        first_point(points.take(i), mode, an, ln) is None,
        point_hit(mode, an, ln, Some(points[i])),
    ensures
        first_point(points, mode, an, ln) == Some(i),
    decreases points.len(),
{
    assert(points.take(i + 1).drop_last() =~= points.take(i));
    assert(first_point(points.take(i + 1), mode, an, ln) == Some(i));
    if points.len() > i + 1 {
        assert(points.drop_last().take(i) =~= points.take(i));
        lemma_first_point_prefix(points.drop_last(), mode, an, ln, i);
    } else {
        assert(points.take(i + 1) =~= points);
    }
}

/// The extra ports of `points`, in order.
fn extras_of(points: &Vec<i32>, an: Option<i32>, ln: Option<i32>) -> (r: Vec<PortChoice>)
    ensures
        r@ == extra_ports(points@, an, ln),
{
    let mut r: Vec<PortChoice> = Vec::new();
    let mut i: usize = 0;
    while i < points.len()
        invariant
            i <= points.len(),
            r@ == extra_ports(points@.take(i as int), an, ln),
        decreases points.len() - i,
    {
        assert(points@.take(i + 1).drop_last() =~= points@.take(i as int));
        let m = points[i];
        if Some(m) != an && Some(m) != ln {
            r.push(PortChoice { role: PortRole::Extra, number: m, source: PortSource::Point(i) });
        }
        i = i + 1;
    }
    assert(points@.take(points.len() as int) =~= points@);
    r
}

impl PipelineQueryService {
    /// The ports of a component (see [`port_plan`]): `arrive_attr` and
    /// `leave_attr` come from its attributes, `pair` from its arrival/leave
    /// pair, `points` are the numbers of its connection points sorted by
    /// number.
    pub fn plan_ports(
        arrive_attr: Option<i32>,
        leave_attr: Option<i32>,
        pair: Option<(i32, i32)>,
        points: &Vec<i32>,
    ) -> (r: PortPlan)
        ensures
            plan_view(r) == port_plan(arrive_attr, leave_attr, pair, points@),
    {
        let (an, ln) = match pair {
            Some((a, l)) => (
                Some(port_number(a, arrive_attr)),
                Some(port_number(l, leave_attr)),
            ),
            None => (arrive_attr, leave_attr),
        };
        let mut arrive_number = an;
        let mut leave_number = ln;
        let mut arrive = match pair {
            Some(_) => Some(
                PortChoice {
                    role: PortRole::Arrive,
                    number: port_number(0, an),
                    source: PortSource::PairArrive,
                },
            ),
            None => match find_point(points, an, ln, 0) {
                Some(k) => Some(
                    PortChoice { role: PortRole::Arrive, number: points[k], source: PortSource::Point(k) },
                ),
                None => None,
            },
        };
        let mut leave = match pair {
            Some(_) => Some(
                PortChoice {
                    role: PortRole::Leave,
                    number: port_number(0, ln),
                    source: PortSource::PairLeave,
                },
            ),
            None => match find_point(points, an, ln, 1) {
                Some(k) => Some(
                    PortChoice { role: PortRole::Leave, number: points[k], source: PortSource::Point(k) },
                ),
                None => None,
            },
        };
        let extras = extras_of(points, an, ln);
        if arrive.is_none() && points.len() > 0 {
            arrive_number = Some(points[0]);
            arrive = Some(
                PortChoice { role: PortRole::Arrive, number: points[0], source: PortSource::Point(0) },
            );
        }
        if leave.is_none() {
            match find_point(points, arrive_number, ln, 2) {
                Some(k) => {
                    leave_number = Some(points[k]);
                    leave = Some(
                        PortChoice { role: PortRole::Leave, number: points[k], source: PortSource::Point(k) },
                    );
                },
                None => {},
            }
        }
        PortPlan { arrive_number, leave_number, arrive, leave, extras }
    }
}

/// Point `a` comes before point `b`: a smaller number, or the same number
/// and an earlier place.
pub open spec fn point_before(numbers: Seq<i32>, a: usize, b: usize) -> bool {
    numbers[a as int] < numbers[b as int] || (numbers[a as int] == numbers[b as int] && a < b)
}

/// `order` lists the indices of `numbers` sorted by number, keeping the
/// given order among equal numbers.
pub open spec fn is_point_order(numbers: Seq<i32>, order: Seq<usize>) -> bool {
    &&& order.len() == numbers.len()
    &&& forall|i: int| 0 <= i < order.len() ==> (#[trigger] order[i]) < numbers.len()
    &&& forall|i: int, j: int|
        0 <= i < j < order.len() ==> point_before(numbers, #[trigger] order[i], #[trigger] order[j])
}

impl PipelineQueryService {
    /// The order of the connection points sorted by number (a stable sort:
    /// points with equal numbers keep their order).
    pub fn sort_points(numbers: &Vec<i32>) -> (order: Vec<usize>)
        ensures
            is_point_order(numbers@, order@),
    {
        let mut order: Vec<usize> = Vec::new();
        let mut i: usize = 0;
        while i < numbers.len()
            invariant
                i <= numbers.len(),
                order.len() == i,
                forall|a: int| 0 <= a < order.len() ==> (#[trigger] order@[a]) < i,
                forall|a: int, b: int|
                    0 <= a < b < order.len() ==> point_before(
                        numbers@,
                        #[trigger] order@[a],
                        #[trigger] order@[b],
                    ),
            decreases numbers.len() - i,
        {
            let mut p: usize = 0;
            while p < order.len() && numbers[order[p]] <= numbers[i]
                invariant
                    p <= order.len(),
                    i < numbers.len(),
                    forall|a: int| 0 <= a < order.len() ==> (#[trigger] order@[a]) < i,
                    forall|a: int| 0 <= a < p ==> numbers@[(#[trigger] order@[a]) as int] <= numbers@[i as int],
                decreases order.len() - p,
            {
                p = p + 1;
            }
            proof {
                assert forall|a: int| p <= a < order.len() implies numbers@[(#[trigger] order@[a]) as int]
                    > numbers@[i as int] by {
                    if a > p {
                        assert(point_before(numbers@, order@[p as int], order@[a]));
                    }
                }
            }
            let ghost prev = order@;
            order.insert(p, i);
            assert(order@ =~= prev.take(p as int).push(i).add(prev.skip(p as int)));
            assert forall|a: int, b: int| 0 <= a < b < order.len() implies point_before(
                numbers@,
                #[trigger] order@[a],
                #[trigger] order@[b],
            ) by {
                if a < p && b == p {
                    assert(order@[a] == prev[a]);
                } else if a < p && b > p {
                    assert(order@[a] == prev[a] && order@[b] == prev[b - 1]);
                } else if a == p {
                    assert(order@[b] == prev[b - 1]);
                } else if a < p {
                    assert(order@[a] == prev[a] && order@[b] == prev[b]);
                } else {
                    assert(order@[a] == prev[a - 1] && order@[b] == prev[b - 1]);
                }
            }
            i = i + 1;
        }
        order
    }
}

/// The main span of a component, from its arrival to its leave port, when
/// it has both.
pub open spec fn main_span_of(p: PortPlan) -> Option<(PortChoice, PortChoice)> {
    match (p.arrive, p.leave) {
        (Some(a), Some(l)) => Some((a, l)),
        _ => None,
    }
}

/// The spans from a main port to each extra port.
pub open spec fn spans_from(start: Option<PortChoice>, extras: Seq<PortChoice>) -> Seq<
    (PortChoice, PortChoice),
> {
    match start {
        Some(s) => extras.map_values(|e: PortChoice| (s, e)),
        None => Seq::empty(),
    }
}

/// All ports: arrival, leave, then the extra ports.
pub open spec fn all_ports_of(p: PortPlan) -> Seq<PortChoice> {
    let a = match p.arrive {
        Some(x) => seq![x],
        None => Seq::empty(),
    };
    let l = match p.leave {
        Some(x) => seq![x],
        None => Seq::empty(),
    };
    a + l + p.extras@
}

/// The spans from `start` to each extra port, appended to `out`.
fn push_spans(out: &mut Vec<(PortChoice, PortChoice)>, start: Option<PortChoice>, extras: &Vec<PortChoice>)
    ensures
        final(out)@ == old(out)@ + spans_from(start, extras@),
{
    match start {
        Some(s) => {
            let mut i: usize = 0;
            let ghost base = out@;
            while i < extras.len()
                invariant
                    i <= extras.len(),
                    out@ == base + extras@.take(i as int).map_values(|e: PortChoice| (s, e)),
                decreases extras.len() - i,
            {
                out.push((s, extras[i]));
                i = i + 1;
                assert(extras@.take(i as int).map_values(|e: PortChoice| (s, e)) =~= extras@.take(
                    i - 1,
                ).map_values(|e: PortChoice| (s, e)).push((s, extras@[i - 1])));
            }
            assert(extras@.take(extras.len() as int) =~= extras@);
        },
        None => {
            assert(out@ =~= old(out)@ + spans_from(start, extras@));
        },
    }
}

impl PortPlan {
    /// The main span, from the arrival to the leave port, when there are
    /// both.
    pub fn main_span(&self) -> (r: Option<(PortChoice, PortChoice)>)
        ensures
            r == main_span_of(*self),
    {
        match (self.arrive, self.leave) {
            (Some(a), Some(l)) => Some((a, l)),
            _ => None,
        }
    }

    /// The branch spans: from the arrival port to each extra port, then
    /// from the leave port to each extra port.
    pub fn branch_spans(&self) -> (r: Vec<(PortChoice, PortChoice)>)
        ensures
            r@ == spans_from(self.arrive, self.extras@) + spans_from(self.leave, self.extras@),
    {
        let mut r: Vec<(PortChoice, PortChoice)> = Vec::new();
        push_spans(&mut r, self.arrive, &self.extras);
        push_spans(&mut r, self.leave, &self.extras);
        assert(r@ =~= spans_from(self.arrive, self.extras@) + spans_from(self.leave, self.extras@));
        r
    }

    /// All ports: arrival, leave, then the extra ports.
    pub fn all_ports(&self) -> (r: Vec<PortChoice>)
        ensures
            r@ == all_ports_of(*self),
    {
        let mut r: Vec<PortChoice> = Vec::new();
        match self.arrive {
            Some(a) => r.push(a),
            None => {},
        }
        match self.leave {
            Some(l) => r.push(l),
            None => {},
        }
        let mut i: usize = 0;
        let ghost base = r@;
        while i < self.extras.len()
            invariant
                i <= self.extras.len(),
                r@ == base + self.extras@.take(i as int),
            decreases self.extras.len() - i,
        {
            r.push(self.extras[i]);
            i = i + 1;
            assert(self.extras@.take(i as int) =~= self.extras@.take(i - 1).push(self.extras@[i - 1]));
        }
        assert(self.extras@.take(self.extras.len() as int) =~= self.extras@);
        assert(r@ =~= all_ports_of(*self));
        r
    }
}

} // verus!
