//! The label set that keys every request metric.

use vstd::prelude::*;
use vstd::string::*;
use vstd::std_specs::cmp::PartialEqSpecImpl;
use crate::text::{decimal, lemma_decimal_injective, same_text, to_decimal};

verus! {

/// A label set as the metric families store it: keys with their values.
pub type LabelPairs = Vec<(String, String)>;

/// What a stored label set holds.
pub type LabelKey = Seq<(Seq<char>, Seq<char>)>;

/// The request methods that get a label value of their own.
#[derive(Clone, Copy, Debug, Hash, PartialEq, Eq, Structural)]
pub enum Method {
    Get,
    Put,
    Post,
    Delete,
    Head,
    Options,
    Connect,
    Patch,
    Trace,
    /// Any method outside the registered ones.
    Other,
}

impl Method {
    /// The label value of the method.
    pub open spec fn name(self) -> Seq<char> {
        match self {
            Method::Get => "GET"@,
            Method::Put => "PUT"@,
            Method::Post => "POST"@,
            Method::Delete => "DELETE"@,
            Method::Head => "HEAD"@,
            Method::Options => "OPTIONS"@,
            Method::Connect => "CONNECT"@,
            Method::Patch => "PATCH"@,
            Method::Trace => "TRACE"@,
            Method::Other => "OTHER"@,
        }
    }

    /// The method that a request line names; `Other` for an unregistered one.
    pub open spec fn named(name: Seq<char>) -> Method {
        if name == "GET"@ {
            Method::Get
        } else if name == "PUT"@ {
            Method::Put
        } else if name == "POST"@ {
            Method::Post
        } else if name == "DELETE"@ {
            Method::Delete
        } else if name == "HEAD"@ {
            Method::Head
        } else if name == "OPTIONS"@ {
            Method::Options
        } else if name == "CONNECT"@ {
            Method::Connect
        } else if name == "PATCH"@ {
            Method::Patch
        } else if name == "TRACE"@ {
            Method::Trace
        } else {
            Method::Other
        }
    }

    pub fn as_str(&self) -> (name: &'static str)
        ensures
            name@ == self.name(),
    {
        match self {
            Method::Get => "GET",
            Method::Put => "PUT",
            Method::Post => "POST",
            Method::Delete => "DELETE",
            Method::Head => "HEAD",
            Method::Options => "OPTIONS",
            Method::Connect => "CONNECT",
            Method::Patch => "PATCH",
            Method::Trace => "TRACE",
            Method::Other => "OTHER",
        }
    }

    /// Reads the method of a request line, which spells it in capitals.
    pub fn from_name(name: &str) -> (method: Method)
        ensures
            method == Method::named(name@),
    {
        if same_text(name, "GET") {
            Method::Get
        } else if same_text(name, "PUT") {
            Method::Put
        } else if same_text(name, "POST") {
            Method::Post
        } else if same_text(name, "DELETE") {
            Method::Delete
        } else if same_text(name, "HEAD") {
            Method::Head
        } else if same_text(name, "OPTIONS") {
            Method::Options
        } else if same_text(name, "CONNECT") {
            Method::Connect
        } else if same_text(name, "PATCH") {
            Method::Patch
        } else if same_text(name, "TRACE") {
            Method::Trace
        } else {
            Method::Other
        }
    }
}

/// Each method is read back from its own name, so no two share one.
pub proof fn lemma_method_names(method: Method)
    ensures
        Method::named(method.name()) == method,
{
    reveal_strlit("GET");
    reveal_strlit("PUT");
    reveal_strlit("POST");
    reveal_strlit("DELETE");
    reveal_strlit("HEAD");
    reveal_strlit("OPTIONS");
    reveal_strlit("CONNECT");
    reveal_strlit("PATCH");
    reveal_strlit("TRACE");
    reveal_strlit("OTHER");
    let name = method.name();
    match method {
        Method::Get => {},
        Method::Put => {
            assert(name[0] == 'P');
        },
        Method::Post => {
            assert(name.len() == 4);
        },
        Method::Delete => {
            assert(name[0] == 'D');
        },
        Method::Head => {
            assert(name[0] == 'H');
        },
        Method::Options => {
            assert(name[2] == 'T');
            assert(name.len() == 7);
        },
        Method::Connect => {
            assert(name[0] == 'C');
            assert(name.len() == 7);
        },
        Method::Patch => {
            assert(name[0] == 'P');
            assert(name.len() == 5);
        },
        Method::Trace => {
            assert(name[0] == 'T');
            assert(name.len() == 5);
        },
        Method::Other => {
            assert(name[1] == 'T');
            assert(name.len() == 5);
        },
    }
}

/// What identifies one time series of a request metric.
#[derive(Clone, Debug, Hash)]
pub struct HttpRequestLabels {
    pub method: Method,
    /// The route that matched, or the raw path where none did.
    pub path: String,
    pub status_code: u32,
}

impl PartialEq for HttpRequestLabels {
    fn eq(&self, other: &Self) -> (equal: bool) {
        self.method == other.method && self.path == other.path && self.status_code
            == other.status_code
    }
}

impl Eq for HttpRequestLabels {

}

impl PartialEqSpecImpl for HttpRequestLabels {
    open spec fn obeys_eq_spec() -> bool {
        true
    }

    open spec fn eq_spec(&self, other: &Self) -> bool {
        self.method == other.method && self.path@ == other.path@ && self.status_code
            == other.status_code
    }
}

/// The label set of a request with these three properties.
pub open spec fn label_key(method: Method, path: Seq<char>, status_code: u32) -> LabelKey {
    seq![
        ("method"@, method.name()),
        ("path"@, path),
        ("status_code"@, decimal(status_code as nat)),
    ]
}

impl HttpRequestLabels {
    /// The label set under which the families keep this series.
    pub open spec fn key(&self) -> LabelKey {
        label_key(self.method, self.path@, self.status_code)
    }

    /// The label set as pairs of key and value, in the order of the fields.
    pub fn pairs(&self) -> (pairs: LabelPairs)
        ensures
            pairs.deep_view() == self.key(),
    {
        let mut pairs: Vec<(String, String)> = Vec::new();
        pairs.push((String::from_str("method"), String::from_str(self.method.as_str())));
        pairs.push((String::from_str("path"), self.path.clone()));
        pairs.push((String::from_str("status_code"), to_decimal(self.status_code as u64)));
        assert(pairs.deep_view() =~= self.key());
        pairs
    }
}

/// Two label sets are the same exactly when method, path and status code are.
pub proof fn lemma_label_key_injective(
    method_a: Method,
    path_a: Seq<char>,
    status_a: u32,
    method_b: Method,
    path_b: Seq<char>,
    status_b: u32,
)
    ensures
        label_key(method_a, path_a, status_a) == label_key(method_b, path_b, status_b) <==> (
        method_a == method_b && path_a == path_b && status_a == status_b),
{
    let a = label_key(method_a, path_a, status_a);
    let b = label_key(method_b, path_b, status_b);
    if a == b {
        assert(a[0].1 == b[0].1);
        assert(a[1].1 == b[1].1);
        assert(a[2].1 == b[2].1);
        lemma_method_names(method_a);
        lemma_method_names(method_b);
        lemma_decimal_injective(status_a as nat, status_b as nat);
    }
}

} // verus!
