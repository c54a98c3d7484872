//! Breadcrumb trails: the crumbs, the separator between them, and which
//! crumbs lead somewhere.

use vstd::prelude::*;

verus! {

/// One crumb of the trail.
pub struct BreadcrumbItem {
    /// Identifier reported when the crumb is clicked.
    pub id: String,
    /// Its text.
    pub label: String,
    /// Icon shown before the text.
    pub icon: Option<String>,
    /// Path the crumb stands for.
    pub href: Option<String>,
}

impl BreadcrumbItem {
    /// A crumb with no icon and no path.
    pub fn new(id: &str, label: &str) -> (b: BreadcrumbItem)
        ensures
            b.id@ == id@,
            b.label@ == label@,
            b.icon is None && b.href is None,
    {
        BreadcrumbItem { id: id.to_owned(), label: label.to_owned(), icon: None, href: None }
    }

    /// Sets the icon.
    pub fn icon(self, icon: &str) -> (b: BreadcrumbItem)
        ensures
            b.icon matches Some(i) && i@ == icon@,
            b.id == self.id && b.label == self.label && b.href == self.href,
    {
        BreadcrumbItem { icon: Some(icon.to_owned()), ..self }
    }

    /// Sets the path.
    pub fn href(self, href: &str) -> (b: BreadcrumbItem)
        ensures
            b.href matches Some(h) && h@ == href@,
            b.id == self.id && b.label == self.label && b.icon == self.icon,
    {
        BreadcrumbItem { href: Some(href.to_owned()), ..self }
    }

    /// The crumb's identifier.
    pub fn id(&self) -> (id: &String)
        ensures
            id == &self.id,
    {
        &self.id
    }
}

/// What stands between two crumbs.
#[derive(Debug, Clone, Copy, PartialEq, Eq, Structural)]
pub enum BreadcrumbSeparator {
    /// `/`
    Slash,
    /// `›`
    Chevron,
    /// `•`
    Dot,
}

impl Default for BreadcrumbSeparator {
    /// The slash.
    fn default() -> (s: BreadcrumbSeparator)
        ensures
            s == BreadcrumbSeparator::Slash,
    {
        BreadcrumbSeparator::Slash
    }
}

impl BreadcrumbSeparator {
    /// The separator's text.
    pub open spec fn text(self) -> Seq<char> {
        match self {
            BreadcrumbSeparator::Slash => "/"@,
            BreadcrumbSeparator::Chevron => "\u{203a}"@,
            BreadcrumbSeparator::Dot => "\u{2022}"@,
        }
    }

    /// The separator's text.
    pub fn char(&self) -> (s: &'static str)
        ensures
            s@ == self.text(),
    {
        match self {
            BreadcrumbSeparator::Slash => "/",
            BreadcrumbSeparator::Chevron => "\u{203a}",
            BreadcrumbSeparator::Dot => "\u{2022}",
        }
    }
}

/// A breadcrumb trail.
pub struct Breadcrumbs {
    /// The crumbs, from the root to the current page.
    pub items: Vec<BreadcrumbItem>,
    /// The separator between crumbs.
    pub separator: BreadcrumbSeparator,
}

/// How one crumb is drawn.
#[derive(Debug, Clone, Copy, PartialEq, Eq, Structural)]
pub struct CrumbLayout {
    /// Whether a separator stands before the crumb.
    pub separator_before: bool,
    /// Whether the crumb is the current page: emphasised and not clickable.
    pub current: bool,
}

impl Breadcrumbs {
    /// An empty trail with slashes.
    pub fn new() -> (b: Breadcrumbs)
        ensures
            b.items@.len() == 0,
            b.separator == BreadcrumbSeparator::Slash,
    {
        Breadcrumbs { items: Vec::new(), separator: BreadcrumbSeparator::Slash }
    }

    /// Replaces the crumbs.
    pub fn items(self, items: Vec<BreadcrumbItem>) -> (b: Breadcrumbs)
        ensures
            b.items == items,
            b.separator == self.separator,
    {
        Breadcrumbs { items, ..self }
    }

    /// Sets the separator.
    pub fn separator(self, separator: BreadcrumbSeparator) -> (b: Breadcrumbs)
        ensures
            b.separator == separator,
            b.items == self.items,
    {
        Breadcrumbs { separator, ..self }
    }

    /// The layout of each crumb: a separator before all but the first, and
    /// only the last one is the current page.
    pub fn layout(&self) -> (l: Vec<CrumbLayout>)
        ensures
            l@.len() == self.items@.len(),
            forall|i: int|
                0 <= i < l@.len() ==> #[trigger] l@[i] == (CrumbLayout {
                    separator_before: i > 0,
                    current: i == self.items@.len() - 1,
                }),
    {
        let n = self.items.len();
        let last = if n > 0 { n - 1 } else { 0 };
        let mut l: Vec<CrumbLayout> = Vec::new();
        let mut i: usize = 0;
        while i < n
            invariant
                i <= n,
                n == self.items@.len(),
                last == (if n > 0 { n - 1 } else { 0 }),
                l@.len() == i,
                forall|k: int|
                    0 <= k < i ==> #[trigger] l@[k] == (CrumbLayout {
                        separator_before: k > 0,
                        current: k == n - 1,
                    }),
            decreases n - i,
        {
            l.push(CrumbLayout { separator_before: i > 0, current: i == last });
            i = i + 1;
        }
        l
    }

    /// The identifier a click on crumb `idx` reports; the current page (the
    /// last crumb) reports nothing.
    pub fn click(&self, idx: usize) -> (r: Option<&String>)
        requires
            idx < self.items@.len(),
        ensures
            idx + 1 == self.items@.len() ==> r is None,
            idx + 1 < self.items@.len() ==> r == Some(&self.items@[idx as int].id),
    {
        let n = self.items.len();
        if idx == n - 1 {
            None
        } else {
            Some(&self.items[idx].id)
        }
    }
}

impl Default for Breadcrumbs {
    /// The empty trail of `new`.
    fn default() -> (b: Breadcrumbs)
        ensures
            b.items@.len() == 0,
            b.separator == BreadcrumbSeparator::Slash,
    {
        Breadcrumbs::new()
    }
}

} // verus!
