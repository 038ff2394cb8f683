use vstd::prelude::*;

verus! {

/// One entry of the navigation bar.
#[derive(Debug)]
pub struct NavigationItem {
    name: String,
    url: String,
    tag: String,
}

/// The entries of the navigation bar as (name, url, tag), in order.
pub open spec fn navigation_entries() -> Seq<(Seq<char>, Seq<char>, Seq<char>)> {
    seq![
        ("Home"@, "/"@, "home"@),
        ("Bucket List"@, "/bucket-list/"@, "bucket-list"@),
        ("User"@, "/user/"@, "user"@),
    ]
}

impl View for NavigationItem {
    type V = (Seq<char>, Seq<char>, Seq<char>);

    closed spec fn view(&self) -> (Seq<char>, Seq<char>, Seq<char>) {
        (self.name@, self.url@, self.tag@)
    }
}

impl NavigationItem {
    fn entry(name: &str, url: &str, tag: &str) -> (r: Self)
        ensures
            r@ == (name@, url@, tag@),
    {
        NavigationItem {
            name: String::from_str(name),
            url: String::from_str(url),
            tag: String::from_str(tag),
        }
    }

    /// The navigation bar.
    pub fn navigations() -> (r: Vec<Self>)
        ensures
            r@.map_values(|n: NavigationItem| n@) == navigation_entries(),
    {
        let mut v: Vec<Self> = Vec::new();
        v.push(Self::entry("Home", "/", "home"));
        v.push(Self::entry("Bucket List", "/bucket-list/", "bucket-list"));
        v.push(Self::entry("User", "/user/", "user"));
        assert(v@.map_values(|n: NavigationItem| n@) =~= navigation_entries());
        v
    }

    pub fn name(&self) -> (r: &str)
        ensures
            r@ == self@.0,
    {
        self.name.as_str()
    }

    pub fn url(&self) -> (r: &str)
        ensures
            r@ == self@.1,
    {
        self.url.as_str()
    }

    /// Whether this entry is the page tagged `tag`, shown as active.
    pub fn is_active(&self, tag: &str) -> (r: bool)
        ensures
            r == (self@.2 == tag@),
    {
        self.tag == String::from_str(tag)
    }
}

/// The kinds of one-time messages that pages show.
#[derive(Debug, Clone, Copy, PartialEq, Eq, Structural)]
pub enum FlashKind {
    Success,
    Error,
    Warning,
}

impl FlashKind {
    /// The kind named `kind`; other names are not shown.
    pub fn parse(kind: &str) -> (r: Option<FlashKind>)
        ensures
            kind@ == "success"@ <==> r == Some(FlashKind::Success),
            kind@ == "error"@ <==> r == Some(FlashKind::Error),
            kind@ == "warning"@ <==> r == Some(FlashKind::Warning),
    {
        let k = String::from_str(kind);
        proof {
            reveal_strlit("success");
            reveal_strlit("error");
            reveal_strlit("warning");
            assert("success"@.len() != "error"@.len());
            assert("success"@[0] != "warning"@[0]);
            assert("error"@.len() != "warning"@.len());
        }
        if k == String::from_str("success") {
            Some(FlashKind::Success)
        } else if k == String::from_str("error") {
            Some(FlashKind::Error)
        } else if k == String::from_str("warning") {
            Some(FlashKind::Warning)
        } else {
            None
        }
    }

    /// The style class of the message.
    pub fn css_class(&self) -> (r: &'static str)
        ensures
            *self == FlashKind::Success ==> r@ == "flash-message-success"@,
            *self == FlashKind::Error ==> r@ == "flash-message-error"@,
            *self == FlashKind::Warning ==> r@ == "flash-message-warning"@,
    {
        match self {
            FlashKind::Success => "flash-message-success",
            FlashKind::Error => "flash-message-error",
            FlashKind::Warning => "flash-message-warning",
        }
    }
}

} // verus!
