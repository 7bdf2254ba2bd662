use vstd::prelude::*;

verus! {

/// One row of the cookie store, after its value has been recovered.
pub struct Cookie {
    pub host: String,
    pub path: String,
    pub name: String,
    pub value: String,
    pub encrypted_value: Vec<u8>,
}

/// A cookie's fields as mathematical values.
pub struct CookieView {
    pub host: Seq<char>,
    pub path: Seq<char>,
    pub name: Seq<char>,
    pub value: Seq<char>,
    pub encrypted_value: Seq<u8>,
}

impl View for Cookie {
    type V = CookieView;

    open spec fn view(&self) -> CookieView {
        CookieView {
            host: self.host@,
            path: self.path@,
            name: self.name@,
            value: self.value@,
            encrypted_value: self.encrypted_value@,
        }
    }
}

/// The cookies of one site, in the order the store returned them.
pub struct SiteCookie(pub Vec<Cookie>);

/// `name=value` of one cookie.
pub open spec fn cookie_pair(name: Seq<char>, value: Seq<char>) -> Seq<char> {
    name + seq!['='] + value
}

/// The request header text of a list of cookies: each `name=value`, joined
/// by `"; "`.
pub open spec fn cookie_header(cookies: Seq<CookieView>) -> Seq<char>
    decreases cookies.len(),
{
    if cookies.len() == 0 {
        Seq::empty()
    } else if cookies.len() == 1 {
        cookie_pair(cookies[0].name, cookies[0].value)
    } else {
        let last = cookies.last();
        cookie_header(cookies.drop_last()) + seq![';', ' '] + cookie_pair(last.name, last.value)
    }
}

impl SiteCookie {
    pub open spec fn cookies(&self) -> Seq<Cookie> {
        self.0@
    }

    /// The cookies' fields, in order.
    pub open spec fn views(&self) -> Seq<CookieView> {
        self.0@.map_values(|c: Cookie| c@)
    }

    pub fn new() -> (r: Self)
        ensures
            r.cookies() == Seq::<Cookie>::empty(),
    {
        SiteCookie(Vec::new())
    }

    pub fn push(&mut self, cookie: Cookie)
        ensures
            final(self).cookies() == old(self).cookies().push(cookie),
    {
        self.0.push(cookie);
    }

    pub fn len(&self) -> (r: usize)
        ensures
            r == self.cookies().len(),
    {
        self.0.len()
    }

    /// The cookies as the text of a `Cookie` request header.
    pub fn to_cookie_string(&self) -> (r: String)
        ensures
            r@ == cookie_header(self.views()),
    {
        let mut out = String::new();
        let sep = "; ";
        let eq = "=";
        proof {
            reveal_strlit("; ");
            reveal_strlit("=");
        }
        let mut i: usize = 0;
        while i < self.0.len()
            invariant
                0 <= i <= self.0@.len(),
                out@ == cookie_header(self.views().subrange(0, i as int)),
                sep@ == seq![';', ' '],
                eq@ == seq!['='],
            decreases self.0@.len() - i,
        {
            let c = &self.0[i];
            if i > 0 {
                out.append(sep);
            }
            out.append(c.name.as_str());
            out.append(eq);
            out.append(c.value.as_str());
            proof {
                let s = self.views().subrange(0, i + 1);
                assert(s.drop_last() =~= self.views().subrange(0, i as int));
                assert(s.last() == self.0@[i as int]@);
                if i == 0 {
                    assert(out@ =~= cookie_pair(c.name@, c.value@));
                } else {
                    assert(out@ =~= cookie_header(s.drop_last()) + seq![';', ' '] + cookie_pair(c.name@, c.value@));
                }
            }
            i = i + 1;
        }
        assert(self.views().subrange(0, self.0@.len() as int) =~= self.views());
        out
    }
}

} // verus!
