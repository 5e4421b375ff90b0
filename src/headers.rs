use vstd::prelude::*;

verus! {

/// One header of a request: its name and its raw value bytes.
pub struct Header {
    pub name: String,
    pub value: Vec<u8>,
}

pub ghost struct HeaderView {
    pub name: Seq<char>,
    pub value: Seq<u8>,
}

impl View for Header {
    type V = HeaderView;

    open spec fn view(&self) -> HeaderView {
        HeaderView { name: self.name@, value: self.value@ }
    }
}

/// Whether a header name is `host`, in any mix of upper and lower case.
pub open spec fn is_host_name(name: Seq<char>) -> bool {
    &&& name.len() == 4
    &&& (name[0] == 'h' || name[0] == 'H')
    &&& (name[1] == 'o' || name[1] == 'O')
    &&& (name[2] == 's' || name[2] == 'S')
    &&& (name[3] == 't' || name[3] == 'T')
}

pub open spec fn keeps_header(h: HeaderView) -> bool {
    !is_host_name(h.name)
}

pub open spec fn header_views(hs: Seq<Header>) -> Seq<HeaderView> {
    hs.map_values(|h: Header| h@)
}

/// The headers sent upstream: the incoming ones, in order, without any `host`.
pub open spec fn forwarded_headers_spec(hs: Seq<HeaderView>) -> Seq<HeaderView> {
    hs.filter(|h: HeaderView| keeps_header(h))
}

/// Tells whether `name` is `host`, ignoring ASCII case.
pub fn is_host_header(name: &str) -> (r: bool)
    ensures
        r == is_host_name(name@),
{
    if name.unicode_len() != 4 {
        return false;
    }
    let c0 = name.get_char(0);
    let c1 = name.get_char(1);
    let c2 = name.get_char(2);
    let c3 = name.get_char(3);
    (c0 == 'h' || c0 == 'H') && (c1 == 'o' || c1 == 'O') && (c2 == 's' || c2 == 'S') && (c3
        == 't' || c3 == 'T')
}

/// Copies a header, name and value.
pub fn copy_header(h: &Header) -> (r: Header)
    ensures
        r@ == h@,
{
    Header { name: h.name.clone(), value: h.value.clone() }
}

/// The header set forwarded upstream: every incoming header, in order, except
/// those named `host` in any case, so that the transport supplies its own.
pub fn forwarded_headers(headers: &Vec<Header>) -> (r: Vec<Header>)
    ensures
        header_views(r@) == forwarded_headers_spec(header_views(headers@)),
{
    let mut out: Vec<Header> = Vec::new();
    let mut i: usize = 0;
    while i < headers.len()
        invariant
            i <= headers.len(),
            header_views(out@) == forwarded_headers_spec(header_views(headers@.subrange(0, i as int))),
        decreases headers.len() - i,
    {
        let h = &headers[i];
        let keep = !is_host_header(h.name.as_str());
        proof {
            let pre = header_views(headers@.subrange(0, i as int));
            let next = header_views(headers@.subrange(0, i as int + 1));
            assert(next.drop_last() =~= pre);
            assert(next.last() == h@);
            reveal(Seq::filter);
        }
        if keep {
            let ghost before = out@;
            out.push(copy_header(h));
            assert(header_views(out@) =~= header_views(before).push(h@));
        }
        i = i + 1;
    }
    assert(headers@.subrange(0, headers.len() as int) =~= headers@);
    out
}

/// No forwarded header set holds a `host` header, whatever its case.
pub proof fn lemma_forwarded_headers_have_no_host(hs: Seq<HeaderView>)
    ensures
        forall|i: int|
            0 <= i < forwarded_headers_spec(hs).len() ==> !is_host_name(
                #[trigger] forwarded_headers_spec(hs)[i].name,
            ),
{
    assert forall|i: int| 0 <= i < forwarded_headers_spec(hs).len() implies !is_host_name(
        #[trigger] forwarded_headers_spec(hs)[i].name,
    ) by {
        hs.lemma_filter_pred(|h: HeaderView| keeps_header(h), i);
    }
}

} // verus!
