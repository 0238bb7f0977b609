use vstd::prelude::*;

verus! {

/// A network link as the kernel's link dump reports it.
#[derive(Debug, Clone)]
pub struct LinkRecord {
    pub index: u32,
    pub name: String,
}

/// A route as the kernel's route dump reports it.
#[derive(Debug, Clone, Copy)]
pub struct RouteRecord {
    pub dst_prefix_len: u8,
    pub oif: Option<u32>,
    pub gateway_v4: Option<[u8; 4]>,
    pub gateway_v6: Option<[u8; 16]>,
}

/// Why no default gateway could be found.
#[derive(Debug, Clone, Copy, PartialEq, Eq, Structural)]
pub enum GatewayError {
    InterfaceNotFound,
    NoGatewayFound,
}

/// A default route (prefix length zero) leaving through interface `index`.
pub open spec fn is_default_route(r: RouteRecord, index: u32) -> bool {
    r.dst_prefix_len == 0 && r.oif == Some(index)
}

/// The IPv4 gateways of the default routes through `index`, in dump order.
pub open spec fn gateways_v4(routes: Seq<RouteRecord>, index: u32) -> Seq<[u8; 4]>
    decreases routes.len(),
{
    if routes.len() == 0 {
        Seq::empty()
    } else {
        let prev = gateways_v4(routes.drop_last(), index);
        let r = routes.last();
        if is_default_route(r, index) && r.gateway_v4 is Some {
            prev.push(r.gateway_v4->0)
        } else {
            prev
        }
    }
}

/// The IPv6 gateways of the default routes through `index`, in dump order.
pub open spec fn gateways_v6(routes: Seq<RouteRecord>, index: u32) -> Seq<[u8; 16]>
    decreases routes.len(),
{
    if routes.len() == 0 {
        Seq::empty()
    } else {
        let prev = gateways_v6(routes.drop_last(), index);
        let r = routes.last();
        if is_default_route(r, index) && r.gateway_v6 is Some {
            prev.push(r.gateway_v6->0)
        } else {
            prev
        }
    }
}

/// The index of the first link named `name`.
pub fn find_interface_index(links: &Vec<LinkRecord>, name: &String) -> (r: Result<u32, GatewayError>)
    ensures
        r is Err ==> r == Err::<u32, GatewayError>(GatewayError::InterfaceNotFound) && forall|i: int|
            0 <= i < links@.len() ==> (#[trigger] links@[i]).name@ != name@,
        r is Ok ==> exists|i: int|
            0 <= i < links@.len() && (#[trigger] links@[i]).name@ == name@ && links@[i].index == r->Ok_0
                && forall|j: int| 0 <= j < i ==> (#[trigger] links@[j]).name@ != name@,
{
    let mut i: usize = 0;
    while i < links.len()
        invariant
            0 <= i <= links@.len(),
            forall|j: int| 0 <= j < i ==> (#[trigger] links@[j]).name@ != name@,
        decreases links@.len() - i,
    {
        if links[i].name == *name {
            return Ok(links[i].index);
        }
        i += 1;
    }
    Err(GatewayError::InterfaceNotFound)
}

/// The gateways of the default routes through interface `index`, split by address
/// family; an error when neither family has one.
pub fn default_gateways(routes: &Vec<RouteRecord>, index: u32) -> (r: Result<
    (Vec<[u8; 4]>, Vec<[u8; 16]>),
    GatewayError,
>)
    ensures
        (gateways_v4(routes@, index).len() == 0 && gateways_v6(routes@, index).len() == 0) <==> r is Err,
        r is Err ==> r == Err::<(Vec<[u8; 4]>, Vec<[u8; 16]>), GatewayError>(GatewayError::NoGatewayFound),
        r matches Ok((v4, v6)) ==> v4@ == gateways_v4(routes@, index) && v6@ == gateways_v6(
            routes@,
            index,
        ),
{
    let mut v4: Vec<[u8; 4]> = Vec::new();
    let mut v6: Vec<[u8; 16]> = Vec::new();
    let mut i: usize = 0;
    while i < routes.len()
        invariant
            0 <= i <= routes@.len(),
            v4@ == gateways_v4(routes@.take(i as int), index),
            v6@ == gateways_v6(routes@.take(i as int), index),
        decreases routes@.len() - i,
    {
        let r = routes[i];
        assert(routes@.take(i + 1).drop_last() =~= routes@.take(i as int));
        let default_route = r.dst_prefix_len == 0 && match r.oif {
            Some(o) => o == index,
            None => false,
        };
        if default_route {
            match r.gateway_v4 {
                Some(g) => v4.push(g),
                None => {},
            }
            match r.gateway_v6 {
                Some(g) => v6.push(g),
                None => {},
            }
        }
        i += 1;
    }
    assert(routes@.take(i as int) =~= routes@);
    if v4.len() == 0 && v6.len() == 0 {
        Err(GatewayError::NoGatewayFound)
    } else {
        Ok((v4, v6))
    }
}

/// Ends a lookup: the gateways found, split by address family, or an error when
/// neither family has one.
pub fn gateways_found<A, B>(v4: Vec<A>, v6: Vec<B>) -> (r: Result<(Vec<A>, Vec<B>), GatewayError>)
    ensures
        (v4@.len() == 0 && v6@.len() == 0) ==> r == Err::<(Vec<A>, Vec<B>), GatewayError>(
            GatewayError::NoGatewayFound,
        ),
        !(v4@.len() == 0 && v6@.len() == 0) ==> (r matches Ok((a, b)) && a@ == v4@ && b@ == v6@),
{
    if v4.len() == 0 && v6.len() == 0 {
        Err(GatewayError::NoGatewayFound)
    } else {
        Ok((v4, v6))
    }
}

/// A router entry without its zone: what precedes the first `%`.
pub open spec fn before_zone(s: Seq<char>) -> Seq<char>
    decreases s.len(),
{
    if s.len() == 0 {
        s
    } else if s[0] == '%' {
        Seq::empty()
    } else {
        seq![s[0]] + before_zone(s.drop_first())
    }
}

proof fn lemma_before_zone_prefix(s: Seq<char>, k: int)
    requires
        0 <= k <= s.len(),
        forall|j: int| 0 <= j < k ==> s[j] != '%',
        k == s.len() || s[k] == '%',
    ensures
        before_zone(s) == s.take(k),
    decreases s.len(),
{
    if s.len() > 0 && k > 0 {
        lemma_before_zone_prefix(s.drop_first(), k - 1);
        assert(seq![s[0]] + s.drop_first().take(k - 1) =~= s.take(k));
    } else {
        assert(s.take(k) =~= Seq::<char>::empty());
    }
}

/// The address part of a router entry, its `%zone` suffix removed.
pub fn strip_zone(router: &str) -> (r: &str)
    ensures
        r@ == before_zone(router@),
{
    let n = router.unicode_len();
    let mut k: usize = 0;
    while k < n && router.get_char(k) != '%'
        invariant
            0 <= k <= n,
            n == router@.len(),
            forall|j: int| 0 <= j < k ==> router@[j] != '%',
        decreases n - k,
    {
        k += 1;
    }
    proof {
        lemma_before_zone_prefix(router@, k as int);
    }
    router.substring_char(0, k)
}

/// ASCII upper-case letters lowered; every other byte kept.
pub open spec fn lower_byte(b: u8) -> u8 {
    if 65 <= b <= 90 {
        (b + 32) as u8
    } else {
        b
    }
}

/// `needle` occurs in `hay` at `i`, ignoring ASCII case.
pub open spec fn occurs_at(hay: Seq<u8>, needle: Seq<u8>, i: int) -> bool {
    0 <= i && i + needle.len() <= hay.len() && forall|j: int|
        0 <= j < needle.len() ==> lower_byte(#[trigger] hay[i + j]) == lower_byte(needle[j])
}

fn occurs_here(hay: &[u8], needle: &[u8], i: usize) -> (r: bool)
    requires
        i + needle@.len() <= hay@.len(),
    ensures
        r == occurs_at(hay@, needle@, i as int),
{
    let total = hay.len();
    let mut j: usize = 0;
    while j < needle.len()
        invariant
            0 <= j <= needle@.len(),
            total == hay@.len(),
            i + needle@.len() <= hay@.len(),
            forall|m: int| 0 <= m < j ==> lower_byte(#[trigger] hay@[i + m]) == lower_byte(needle@[m]),
        decreases needle@.len() - j,
    {
        let a = hay[i + j];
        let b = needle[j];
        let la = if 65 <= a && a <= 90 { a + 32 } else { a };
        let lb = if 65 <= b && b <= 90 { b + 32 } else { b };
        if la != lb {
            assert(lower_byte(hay@[i + j]) != lower_byte(needle@[j as int]));
            return false;
        }
        j += 1;
    }
    true
}

/// True when the adapter name occurs in the interface identifier, ignoring ASCII
/// case: how an adapter is matched to the identifier the user gave.
pub fn adapter_matches(interface: &[u8], adapter: &[u8]) -> (r: bool)
    ensures
        r == exists|i: int| occurs_at(interface@, adapter@, i),
{
    if adapter.len() > interface.len() {
        assert forall|i: int| !occurs_at(interface@, adapter@, i) by {}
        return false;
    }
    let last = interface.len() - adapter.len();
    let mut i: usize = 0;
    while i < last
        invariant
            last + adapter@.len() == interface@.len(),
            0 <= i <= last,
            forall|m: int| 0 <= m < i ==> !occurs_at(interface@, adapter@, m),
        decreases last - i,
    {
        if occurs_here(interface, adapter, i) {
            return true;
        }
        i += 1;
    }
    if occurs_here(interface, adapter, last) {
        return true;
    }
    assert forall|m: int| !occurs_at(interface@, adapter@, m) by {
        if 0 <= m < last {
        }
    }
    false
}

/// Where the next message of a receive buffer holding `size` bytes starts, when the
/// message at `offset` declares `length` bytes; `None` ends the dump: a zero length,
/// or one that runs past the buffer.
pub fn next_message_offset(size: usize, offset: usize, length: usize) -> (r: Option<usize>)
    requires
        offset <= size,
    ensures
        r == if length == 0 || length > size - offset {
            None::<usize>
        } else {
            Some((offset + length) as usize)
        },
{
    if length == 0 || length > size - offset {
        None
    } else {
        Some(offset + length)
    }
}

} // verus!
