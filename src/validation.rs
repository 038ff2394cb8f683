use unicode_segmentation::UnicodeSegmentation;
use vstd::prelude::*;

use crate::text::{
    count_class, count_in_class, has_class, has_in_class, labelled, strings_view, CharClass,
};

verus! {

/// A field name and the messages explaining why its value was rejected.
pub type ItemView = (Seq<char>, Seq<Seq<char>>);

/// The validation messages attached to one form field.
#[derive(Debug)]
pub struct ValidateErrorItem {
    field_name: String,
    messages: Vec<String>,
}

impl View for ValidateErrorItem {
    type V = ItemView;

    closed spec fn view(&self) -> ItemView {
        (self.field_name@, strings_view(self.messages@))
    }
}

/// The views of a sequence of error items.
pub open spec fn items_view(v: Seq<ValidateErrorItem>) -> Seq<ItemView> {
    v.map_values(|x: ValidateErrorItem| x@)
}

pub open spec fn opt_item_view(o: Option<ValidateErrorItem>) -> Option<ItemView> {
    match o {
        Some(item) => Some(item@),
        None => None,
    }
}

/// A copy of a list of strings.
pub fn copy_strings(v: &Vec<String>) -> (r: Vec<String>)
    ensures
        strings_view(r@) == strings_view(v@),
{
    let mut out: Vec<String> = Vec::new();
    let mut i: usize = 0;
    while i < v.len()
        invariant
            i <= v.len(),
            strings_view(out@) == strings_view(v@.subrange(0, i as int)),
        decreases v.len() - i,
    {
        out.push(v[i].clone());
        assert(strings_view(v@.subrange(0, i + 1)) =~= strings_view(v@.subrange(0, i as int)).push(
            v@[i as int]@,
        ));
        assert(strings_view(out@) =~= strings_view(v@.subrange(0, i + 1)));
        i = i + 1;
    }
    assert(v@.subrange(0, v.len() as int) =~= v@);
    out
}

/// `a` followed by a copy of `b`.
fn append_copies(a: Vec<String>, b: &Vec<String>) -> (r: Vec<String>)
    ensures
        strings_view(r@) == strings_view(a@) + strings_view(b@),
{
    let mut out = a;
    let ghost start = strings_view(out@);
    let mut i: usize = 0;
    while i < b.len()
        invariant
            i <= b.len(),
            strings_view(out@) == start + strings_view(b@.subrange(0, i as int)),
        decreases b.len() - i,
    {
        let ghost prev = out@;
        out.push(b[i].clone());
        assert(strings_view(out@) =~= strings_view(prev).push(b@[i as int]@));
        assert(strings_view(b@.subrange(0, i + 1)) =~= strings_view(b@.subrange(0, i as int)).push(
            b@[i as int]@,
        ));
        assert(strings_view(out@) =~= start + strings_view(b@.subrange(0, i + 1)));
        i = i + 1;
    }
    assert(b@.subrange(0, b.len() as int) =~= b@);
    out
}

impl ValidateErrorItem {
    /// An item for `field_name`, or `None` when there is no message.
    pub fn from_vec(field_name: String, messages: Vec<String>) -> (r: Option<Self>)
        ensures
            messages@.len() == 0 <==> r is None,
            r matches Some(item) ==> item@ == (field_name@, strings_view(messages@)),
    {
        if messages.len() == 0 {
            return None;
        }
        Some(Self { field_name, messages })
    }

    pub fn field_name(&self) -> (r: &str)
        ensures
            r@ == self@.0,
    {
        self.field_name.as_str()
    }

    pub fn messages(&self) -> (r: &Vec<String>)
        ensures
            strings_view(r@) == self@.1,
    {
        &self.messages
    }

    /// A copy of this item.
    pub fn copy(&self) -> (r: Self)
        ensures
            r@ == self@,
    {
        Self { field_name: self.field_name.clone(), messages: copy_strings(&self.messages) }
    }
}

/// A value that may carry the validation messages of one field.
pub trait ValidateErrorItemTrait: Sized {
    spec fn error_item(&self) -> Option<ItemView>;

    fn get_validate_error_item(&self) -> (r: Option<ValidateErrorItem>)
        ensures
            opt_item_view(r) == self.error_item(),
    ;
}

impl<T, E: ValidateErrorItemTrait> ValidateErrorItemTrait for Result<T, E> {
    open spec fn error_item(&self) -> Option<ItemView> {
        match self {
            Ok(_) => None,
            Err(e) => e.error_item(),
        }
    }

    fn get_validate_error_item(&self) -> (r: Option<ValidateErrorItem>) {
        match self {
            Ok(_) => None,
            Err(e) => e.get_validate_error_item(),
        }
    }
}

/// Keys are unique: no two items name the same field.
pub open spec fn fields_unique(items: Seq<ItemView>) -> bool {
    forall|i: int, j: int|
        0 <= i < items.len() && 0 <= j < items.len() && i != j ==> #[trigger] items[i].0
            != #[trigger] items[j].0
}

/// Adds `item` to `acc`: its messages go after those of the entry for the same
/// field, or it becomes a new last entry.
pub open spec fn merge_item(acc: Seq<ItemView>, item: ItemView) -> Seq<ItemView> {
    if exists|j: int| 0 <= j < acc.len() && #[trigger] acc[j].0 == item.0 {
        let j = choose|j: int| 0 <= j < acc.len() && #[trigger] acc[j].0 == item.0;
        acc.update(j, (item.0, acc[j].1 + item.1))
    } else {
        acc.push(item)
    }
}

/// One entry per field, in order of first appearance, with the messages of all
/// items of that field in order.
pub open spec fn merged_items(items: Seq<ItemView>) -> Seq<ItemView>
    decreases items.len(),
{
    if items.len() == 0 {
        Seq::empty()
    } else {
        merge_item(merged_items(items.drop_last()), items.last())
    }
}

pub proof fn lemma_merge_item_unique(acc: Seq<ItemView>, item: ItemView)
    requires
        fields_unique(acc),
    ensures
        fields_unique(merge_item(acc, item)),
{
    let r = merge_item(acc, item);
    if exists|j: int| 0 <= j < acc.len() && #[trigger] acc[j].0 == item.0 {
        let j = choose|j: int| 0 <= j < acc.len() && #[trigger] acc[j].0 == item.0;
        assert forall|a: int, b: int| 0 <= a < r.len() && 0 <= b < r.len() && a != b implies #[trigger] r[a].0
            != #[trigger] r[b].0 by {
            assert(r[a].0 == acc[a].0);
            assert(r[b].0 == acc[b].0);
        }
    } else {
        assert forall|a: int, b: int| 0 <= a < r.len() && 0 <= b < r.len() && a != b implies #[trigger] r[a].0
            != #[trigger] r[b].0 by {
            if a < acc.len() && b < acc.len() {
                assert(r[a].0 == acc[a].0);
                assert(r[b].0 == acc[b].0);
            } else if a < acc.len() {
                assert(r[a].0 == acc[a].0);
            } else if b < acc.len() {
                assert(r[b].0 == acc[b].0);
            }
        }
    }
}

/// Every field appears once in the merged view.
pub proof fn lemma_merged_fields_unique(items: Seq<ItemView>)
    ensures
        fields_unique(merged_items(items)),
    decreases items.len(),
{
    if items.len() > 0 {
        lemma_merged_fields_unique(items.drop_last());
        lemma_merge_item_unique(merged_items(items.drop_last()), items.last());
    }
}

/// Adds `item` to `acc` as `merge_item` describes.
fn insert_merged(acc: &mut Vec<ValidateErrorItem>, item: &ValidateErrorItem)
    requires
        fields_unique(items_view(old(acc)@)),
    ensures
        items_view(final(acc)@) == merge_item(items_view(old(acc)@), item@),
        fields_unique(items_view(final(acc)@)),
{
    let ghost v = items_view(acc@);
    proof {
        lemma_merge_item_unique(v, item@);
    }
    let mut j: usize = 0;
    while j < acc.len()
        invariant
            j <= acc.len(),
            v == items_view(acc@),
            v == items_view(old(acc)@),
            fields_unique(v),
            forall|k: int| 0 <= k < j ==> #[trigger] v[k].0 != item@.0,
        decreases acc.len() - j,
    {
        if acc[j].field_name == item.field_name {
            assert(v[j as int].0 == item@.0);
            let current = copy_strings(&acc[j].messages);
            let messages = append_copies(current, &item.messages);
            let entry = ValidateErrorItem { field_name: item.field_name.clone(), messages };
            assert(entry@ == (item@.0, v[j as int].1 + item@.1));
            acc.set(j, entry);
            proof {
                let jj = choose|jj: int| 0 <= jj < v.len() && #[trigger] v[jj].0 == item@.0;
                assert(jj == j);
                assert(items_view(acc@) =~= v.update(j as int, (item@.0, v[j as int].1 + item@.1)));
                assert(merge_item(v, item@) == v.update(jj, (item@.0, v[jj].1 + item@.1)));
            }
            return ;
        }
        j = j + 1;
    }
    acc.push(item.copy());
    assert(items_view(acc@) =~= v.push(item@));
}

/// The answer to a form whose fields failed validation: one item per failing field.
#[derive(Debug)]
pub struct ValidationErrorResponse(pub Vec<ValidateErrorItem>);

/// The messages of each field, merged: one item per field.
#[derive(Debug)]
pub struct ValidateErrorMap {
    items: Vec<ValidateErrorItem>,
}

impl ValidateErrorMap {
    pub closed spec fn spec_items(&self) -> Seq<ItemView> {
        items_view(self.items@)
    }

    pub fn items(&self) -> (r: &Vec<ValidateErrorItem>)
        ensures
            items_view(r@) == self.spec_items(),
    {
        &self.items
    }

    /// The item of the field named `field`, if any.
    pub fn get(&self, field: &str) -> (r: Option<&ValidateErrorItem>)
        ensures
            r is None <==> (forall|j: int|
                0 <= j < self.spec_items().len() ==> #[trigger] self.spec_items()[j].0 != field@),
            r matches Some(item) ==> exists|j: int|
                0 <= j < self.spec_items().len() && #[trigger] self.spec_items()[j] == item@,
            r matches Some(item) ==> item@.0 == field@,
    {
        let key = String::from_str(field);
        let mut j: usize = 0;
        while j < self.items.len()
            invariant
                j <= self.items.len(),
                key@ == field@,
                forall|k: int| 0 <= k < j ==> #[trigger] self.spec_items()[k].0 != field@,
            decreases self.items.len() - j,
        {
            if self.items[j].field_name == key {
                assert(self.spec_items()[j as int] == self.items@[j as int]@);
                assert(self.spec_items()[j as int].0 == field@);
                return Some(&self.items[j]);
            }
            j = j + 1;
        }
        None
    }
}

/// Merges `items` into a map, keeping the order in which fields first appear.
fn merge_all(items: &Vec<ValidateErrorItem>) -> (r: Vec<ValidateErrorItem>)
    ensures
        items_view(r@) == merged_items(items_view(items@)),
{
    let mut acc: Vec<ValidateErrorItem> = Vec::new();
    let mut i: usize = 0;
    while i < items.len()
        invariant
            i <= items.len(),
            items_view(acc@) == merged_items(items_view(items@.subrange(0, i as int))),
            fields_unique(items_view(acc@)),
        decreases items.len() - i,
    {
        assert(items_view(items@.subrange(0, i + 1)).drop_last() =~= items_view(
            items@.subrange(0, i as int),
        ));
        insert_merged(&mut acc, &items[i]);
        i = i + 1;
    }
    assert(items@.subrange(0, items.len() as int) =~= items@);
    acc
}

impl ValidationErrorResponse {
    /// The items, with the messages of items that share a field joined in order.
    pub fn as_map(&self) -> (r: ValidateErrorMap)
        ensures
            r.spec_items() == merged_items(items_view(self.0@)),
            fields_unique(r.spec_items()),
    {
        proof {
            lemma_merged_fields_unique(items_view(self.0@));
        }
        ValidateErrorMap { items: merge_all(&self.0) }
    }
}

/// The items of every group, one group after the other.
pub open spec fn flatten_groups(groups: Seq<(Seq<char>, Seq<ItemView>)>) -> Seq<ItemView>
    decreases groups.len(),
{
    if groups.len() == 0 {
        Seq::empty()
    } else {
        flatten_groups(groups.drop_last()) + groups.last().1
    }
}

pub type GroupsView = Seq<(Seq<char>, Seq<ItemView>)>;

pub open spec fn groups_view(v: Seq<(String, Vec<ValidateErrorItem>)>) -> GroupsView {
    v.map_values(|g: (String, Vec<ValidateErrorItem>)| (g.0@, items_view(g.1@)))
}

/// Several failed forms, each under its own name.
#[derive(Debug)]
pub struct ValidationErrorMergedResponse(pub Vec<(String, Vec<ValidateErrorItem>)>);

impl ValidationErrorMergedResponse {
    /// The items of all groups, with the messages of items that share a field joined.
    pub fn as_map(&self) -> (r: ValidateErrorMap)
        ensures
            r.spec_items() == merged_items(flatten_groups(groups_view(self.0@))),
            fields_unique(r.spec_items()),
    {
        proof {
            lemma_merged_fields_unique(flatten_groups(groups_view(self.0@)));
        }
        let mut acc: Vec<ValidateErrorItem> = Vec::new();
        let mut g: usize = 0;
        while g < self.0.len()
            invariant
                g <= self.0.len(),
                items_view(acc@) == merged_items(
                    flatten_groups(groups_view(self.0@.subrange(0, g as int))),
                ),
                fields_unique(items_view(acc@)),
            decreases self.0.len() - g,
        {
            let group = &self.0[g].1;
            let ghost before = flatten_groups(groups_view(self.0@.subrange(0, g as int)));
            assert(groups_view(self.0@.subrange(0, g + 1)).drop_last() =~= groups_view(
                self.0@.subrange(0, g as int),
            ));
            let mut i: usize = 0;
            while i < group.len()
                invariant
                    i <= group.len(),
                    items_view(acc@) == merged_items(
                        before + items_view(group@.subrange(0, i as int)),
                    ),
                    fields_unique(items_view(acc@)),
                decreases group.len() - i,
            {
                assert((before + items_view(group@.subrange(0, i + 1))).drop_last() =~= before
                    + items_view(group@.subrange(0, i as int)));
                insert_merged(&mut acc, &group[i]);
                i = i + 1;
            }
            assert(group@.subrange(0, group.len() as int) =~= group@);
            g = g + 1;
        }
        assert(self.0@.subrange(0, self.0.len() as int) =~= self.0@);
        ValidateErrorMap { items: acc }
    }
}

/// The messages joined by `, `.
pub open spec fn joined(messages: Seq<Seq<char>>) -> Seq<char>
    decreases messages.len(),
{
    if messages.len() == 0 {
        Seq::empty()
    } else if messages.len() == 1 {
        messages[0]
    } else {
        joined(messages.drop_last()) + ", "@ + messages.last()
    }
}

/// One line per item: its messages joined by `, `, then `;` and a newline.
pub open spec fn items_text(items: Seq<ItemView>) -> Seq<char>
    decreases items.len(),
{
    if items.len() == 0 {
        Seq::empty()
    } else {
        items_text(items.drop_last()) + joined(items.last().1) + ";\n"@
    }
}

/// Appends the line of `item` to `out`.
fn push_item_line(out: &mut String, item: &ValidateErrorItem)
    ensures
        final(out)@ == old(out)@ + joined(item@.1) + ";\n"@,
{
    let ghost start = out@;
    let messages = &item.messages;
    let mut i: usize = 0;
    while i < messages.len()
        invariant
            i <= messages.len(),
            out@ == start + joined(strings_view(messages@.subrange(0, i as int))),
        decreases messages.len() - i,
    {
        let ghost prefix = strings_view(messages@.subrange(0, i as int));
        let ghost next = strings_view(messages@.subrange(0, i + 1));
        assert(next.drop_last() =~= prefix);
        assert(next.last() == messages@[i as int]@);
        if i > 0 {
            out.append(", ");
        }
        out.append(messages[i].as_str());
        assert(out@ =~= start + joined(next));
        i = i + 1;
    }
    assert(messages@.subrange(0, messages.len() as int) =~= messages@);
    out.append(";\n");
}

impl ValidationErrorResponse {
    /// The response as text: one line per item.
    pub fn to_text(&self) -> (r: String)
        ensures
            r@ == items_text(items_view(self.0@)),
    {
        let mut out = String::new();
        let mut i: usize = 0;
        while i < self.0.len()
            invariant
                i <= self.0.len(),
                out@ == items_text(items_view(self.0@.subrange(0, i as int))),
            decreases self.0.len() - i,
        {
            assert(items_view(self.0@.subrange(0, i + 1)).drop_last() =~= items_view(
                self.0@.subrange(0, i as int),
            ));
            push_item_line(&mut out, &self.0[i]);
            i = i + 1;
        }
        assert(self.0@.subrange(0, self.0.len() as int) =~= self.0@);
        out
    }
}

impl ValidationErrorMergedResponse {
    /// The response as text: one line per item of every group, group after group.
    pub fn to_text(&self) -> (r: String)
        ensures
            r@ == items_text(flatten_groups(groups_view(self.0@))),
    {
        let mut out = String::new();
        let mut g: usize = 0;
        while g < self.0.len()
            invariant
                g <= self.0.len(),
                out@ == items_text(flatten_groups(groups_view(self.0@.subrange(0, g as int)))),
            decreases self.0.len() - g,
        {
            let group = &self.0[g].1;
            let ghost before = flatten_groups(groups_view(self.0@.subrange(0, g as int)));
            assert(groups_view(self.0@.subrange(0, g + 1)).drop_last() =~= groups_view(
                self.0@.subrange(0, g as int),
            ));
            let mut i: usize = 0;
            while i < group.len()
                invariant
                    i <= group.len(),
                    out@ == items_text(before + items_view(group@.subrange(0, i as int))),
                decreases group.len() - i,
            {
                assert((before + items_view(group@.subrange(0, i + 1))).drop_last() =~= before
                    + items_view(group@.subrange(0, i as int)));
                push_item_line(&mut out, &group[i]);
                i = i + 1;
            }
            assert(group@.subrange(0, group.len() as int) =~= group@);
            g = g + 1;
        }
        assert(self.0@.subrange(0, self.0.len() as int) =~= self.0@);
        out
    }
}

/// Collects the items of failing fields.
pub struct ValidationErrorsBuilder(Vec<ValidateErrorItem>);

impl ValidationErrorsBuilder {
    pub closed spec fn spec_items(&self) -> Seq<ItemView> {
        items_view(self.0@)
    }

    pub fn new() -> (r: Self)
        ensures
            r.spec_items() == Seq::<ItemView>::empty(),
    {
        Self(Vec::new())
    }

    /// Records the messages of `field_name`; nothing when there is none.
    pub fn add(&mut self, field_name: String, messages: Vec<String>)
        ensures
            messages@.len() == 0 ==> final(self).spec_items() == old(self).spec_items(),
            messages@.len() > 0 ==> final(self).spec_items() == old(self).spec_items().push(
                (field_name@, strings_view(messages@)),
            ),
    {
        if let Some(item) = ValidateErrorItem::from_vec(field_name, messages) {
            self.0.push(item);
            assert(self.spec_items() =~= old(self).spec_items().push(item@));
        }
    }

    /// Records the item that `item` carries, if any, and hands `item` back.
    pub fn add_item_from_trait<T: ValidateErrorItemTrait>(&mut self, item: T) -> (r: T)
        ensures
            r == item,
            item.error_item() is None ==> final(self).spec_items() == old(self).spec_items(),
            item.error_item() matches Some(e) ==> final(self).spec_items() == old(
                self,
            ).spec_items().push(e),
    {
        if let Some(e) = item.get_validate_error_item() {
            self.0.push(e);
            assert(self.spec_items() =~= old(self).spec_items().push(e@));
        }
        item
    }

    /// `Ok` when no field failed, else the response listing every recorded item.
    pub fn build_result(self) -> (r: Result<(), ValidationErrorResponse>)
        ensures
            self.spec_items().len() == 0 <==> r is Ok,
            r matches Err(e) ==> items_view(e.0@) == self.spec_items(),
    {
        if self.0.len() == 0 {
            Ok(())
        } else {
            Err(ValidationErrorResponse(self.0))
        }
    }
}

/// Collects the failed forms, each under a name; a later form replaces an
/// earlier one of the same name.
pub struct ValidationErrorsMergeBuilder(Vec<(String, Vec<ValidateErrorItem>)>);

/// Puts `items` under `name`: in place of the group of that name, or as a new last group.
pub open spec fn replace_group(groups: GroupsView, name: Seq<char>, items: Seq<ItemView>) -> GroupsView {
    if exists|j: int| 0 <= j < groups.len() && #[trigger] groups[j].0 == name {
        let j = choose|j: int| 0 <= j < groups.len() && #[trigger] groups[j].0 == name;
        groups.update(j, (name, items))
    } else {
        groups.push((name, items))
    }
}

pub open spec fn names_unique(groups: GroupsView) -> bool {
    forall|i: int, j: int|
        0 <= i < groups.len() && 0 <= j < groups.len() && i != j ==> #[trigger] groups[i].0
            != #[trigger] groups[j].0
}

/// Puts `items` under `name` as `replace_group` describes.
fn put_group(groups: &mut Vec<(String, Vec<ValidateErrorItem>)>, name: String, items: Vec<ValidateErrorItem>)
    requires
        names_unique(groups_view(old(groups)@)),
    ensures
        groups_view(final(groups)@) == replace_group(groups_view(old(groups)@), name@, items_view(items@)),
        names_unique(groups_view(final(groups)@)),
{
    let ghost v = groups_view(groups@);
    let ghost iv = items_view(items@);
    let ghost key = name@;
    let mut j: usize = 0;
    while j < groups.len()
        invariant
            j <= groups.len(),
            v == groups_view(groups@),
            v == groups_view(old(groups)@),
            key == name@,
            iv == items_view(items@),
            names_unique(v),
            forall|k: int| 0 <= k < j ==> #[trigger] v[k].0 != key,
        decreases groups.len() - j,
    {
        if groups[j].0 == name {
            assert(v[j as int].0 == key);
            groups.set(j, (name, items));
            proof {
                let jj = choose|jj: int| 0 <= jj < v.len() && #[trigger] v[jj].0 == key;
                assert(jj == j);
                let r = groups_view(groups@);
                assert(r =~= v.update(j as int, (key, iv)));
                assert forall|a: int, b: int| 0 <= a < r.len() && 0 <= b < r.len() && a != b implies #[trigger] r[a].0
                    != #[trigger] r[b].0 by {
                    assert(r[a].0 == v[a].0);
                    assert(r[b].0 == v[b].0);
                }
            }
            return ;
        }
        j = j + 1;
    }
    groups.push((name, items));
    proof {
        let r = groups_view(groups@);
        assert(r =~= v.push((key, iv)));
        assert forall|a: int, b: int| 0 <= a < r.len() && 0 <= b < r.len() && a != b implies #[trigger] r[a].0
            != #[trigger] r[b].0 by {
            if a < v.len() {
                assert(r[a].0 == v[a].0);
            }
            if b < v.len() {
                assert(r[b].0 == v[b].0);
            }
        }
    }
}

impl ValidationErrorsMergeBuilder {
    pub closed spec fn spec_groups(&self) -> GroupsView {
        groups_view(self.0@)
    }

    #[verifier::type_invariant]
    closed spec fn wf(&self) -> bool {
        names_unique(groups_view(self.0@))
    }

    pub fn new() -> (r: Self)
        ensures
            r.spec_groups() == GroupsView::empty(),
    {
        Self(Vec::new())
    }

    /// Keeps the items of `errors` under `name` when it is an error.
    pub fn merge(self, name: String, errors: Result<(), ValidationErrorResponse>) -> (r: Self)
        ensures
            errors is Ok ==> r.spec_groups() == self.spec_groups(),
            errors matches Err(e) ==> r.spec_groups() == replace_group(
                self.spec_groups(),
                name@,
                items_view(e.0@),
            ),
    {
        proof {
            use_type_invariant(&self);
        }
        let mut groups = self.0;
        match errors {
            Ok(()) => Self(groups),
            Err(e) => {
                put_group(&mut groups, name, e.0);
                Self(groups)
            },
        }
    }

    /// `Ok` when no form failed, else every failed form under its name.
    pub fn build_result(self) -> (r: Result<(), ValidationErrorMergedResponse>)
        ensures
            self.spec_groups().len() == 0 <==> r is Ok,
            r matches Err(e) ==> groups_view(e.0@) == self.spec_groups(),
    {
        if self.0.len() == 0 {
            Ok(())
        } else {
            Err(ValidationErrorMergedResponse(self.0))
        }
    }
}

/// The name given, or `default` when none is.
pub open spec fn name_or(field_name: Option<String>, default: Seq<char>) -> Seq<char> {
    match field_name {
        Some(f) => f@,
        None => default,
    }
}

pub fn field_name_or(field_name: Option<String>, default: &str) -> (r: String)
    ensures
        r@ == name_or(field_name, default@),
{
    match field_name {
        Some(f) => f,
        None => String::from_str(default),
    }
}

/// The single message `message` when `cond` holds, else none.
pub open spec fn rule(cond: bool, message: Seq<char>) -> Seq<Seq<char>> {
    if cond {
        seq![message]
    } else {
        Seq::empty()
    }
}

/// The messages of the length rules: an empty text (no grapheme cluster) gets
/// only the `empty` message; any other gets the `short` message below `min`
/// clusters and the `long` message above `max`.
pub open spec fn length_messages(
    label: Seq<char>,
    count: nat,
    empty: Seq<char>,
    min: nat,
    short: Seq<char>,
    max: nat,
    long: Seq<char>,
) -> Seq<Seq<char>> {
    if count == 0 {
        seq![label + empty]
    } else {
        rule(count < min, label + short) + rule(count > max, label + long)
    }
}

/// Adds `label + message` to `messages` when `cond` holds.
pub fn push_rule(messages: &mut Vec<String>, cond: bool, label: &str, message: &str)
    ensures
        strings_view(final(messages)@) == strings_view(old(messages)@) + rule(
            cond,
            label@ + message@,
        ),
{
    if cond {
        let ghost prev = messages@;
        messages.push(labelled(label, message));
        assert(strings_view(messages@) =~= strings_view(prev) + rule(cond, label@ + message@));
    } else {
        assert(strings_view(messages@) =~= strings_view(messages@) + rule(cond, label@ + message@));
    }
}

/// Adds the messages of the length rules to `messages`.
pub fn push_length_messages(
    messages: &mut Vec<String>,
    label: &str,
    count: usize,
    empty: &str,
    min: usize,
    short: &str,
    max: usize,
    long: &str,
)
    ensures
        strings_view(final(messages)@) == strings_view(old(messages)@) + length_messages(
            label@,
            count as nat,
            empty@,
            min as nat,
            short@,
            max as nat,
            long@,
        ),
{
    let ghost start = strings_view(messages@);
    if count == 0 {
        push_rule(messages, true, label, empty);
        assert(rule(true, label@ + empty@) =~= seq![label@ + empty@]);
    } else {
        push_rule(messages, count < min, label, short);
        push_rule(messages, count > max, label, long);
        assert(strings_view(messages@) =~= start + (rule(count < min, label@ + short@) + rule(
            count > max,
            label@ + long@,
        )));
    }
}

/// The number of extended grapheme clusters of a text.
pub uninterp spec fn grapheme_count(s: Seq<char>) -> nat;

/// Relies on unicode_segmentation's `graphemes(true)`: the clusters of a text
/// depend on its characters alone, there are none in an empty text and at least
/// one in any other.
#[verifier::external_body]
fn count_graphemes_of(s: &str) -> (r: usize)
    ensures
        r == grapheme_count(s@),
        (r == 0) == (s@.len() == 0),
{
    s.graphemes(true).count()
}

/// A text together with the number of its grapheme clusters.
pub struct StringValidator<'a>(&'a str, usize);

impl<'a> StringValidator<'a> {
    pub closed spec fn text(&self) -> Seq<char> {
        self.0@
    }

    #[verifier::type_invariant]
    closed spec fn counted(&self) -> bool {
        &&& self.1 == grapheme_count(self.0@)
        &&& (self.1 == 0) == (self.0@.len() == 0)
    }

    pub fn new(s: &'a str) -> (r: Self)
        ensures
            r.text() == s@,
    {
        Self(s, count_graphemes_of(s))
    }

    pub fn count_graphemes(&self) -> (r: usize)
        ensures
            r == grapheme_count(self.text()),
            (r == 0) == (self.text().len() == 0),
    {
        proof {
            use_type_invariant(self);
        }
        self.1
    }

    pub fn is_empty(&self) -> (r: bool)
        ensures
            r == (grapheme_count(self.text()) == 0),
            r == (self.text().len() == 0),
    {
        proof {
            use_type_invariant(self);
        }
        self.1 == 0
    }

    pub fn has_special_chars(&self) -> (r: bool)
        ensures
            r == has_in_class(self.text(), CharClass::Special),
    {
        has_class(self.0, CharClass::Special)
    }

    pub fn count_special_chars(&self) -> (r: usize)
        ensures
            r == count_in_class(self.text(), CharClass::Special),
    {
        count_class(self.0, CharClass::Special)
    }

    pub fn has_ascii_uppercase(&self) -> (r: bool)
        ensures
            r == has_in_class(self.text(), CharClass::AsciiUppercase),
    {
        has_class(self.0, CharClass::AsciiUppercase)
    }

    pub fn count_ascii_uppercase(&self) -> (r: usize)
        ensures
            r == count_in_class(self.text(), CharClass::AsciiUppercase),
    {
        count_class(self.0, CharClass::AsciiUppercase)
    }

    pub fn has_ascii_lowercase(&self) -> (r: bool)
        ensures
            r == has_in_class(self.text(), CharClass::AsciiLowercase),
    {
        has_class(self.0, CharClass::AsciiLowercase)
    }

    pub fn count_ascii_lowercase(&self) -> (r: usize)
        ensures
            r == count_in_class(self.text(), CharClass::AsciiLowercase),
    {
        count_class(self.0, CharClass::AsciiLowercase)
    }

    pub fn has_ascii_uppercase_and_lowercase(&self) -> (r: bool)
        ensures
            r == (has_in_class(self.text(), CharClass::AsciiUppercase) && has_in_class(
                self.text(),
                CharClass::AsciiLowercase,
            )),
    {
        self.has_ascii_uppercase() && self.has_ascii_lowercase()
    }

    /// Letters of either case, counted together (saturating at `usize::MAX`).
    pub fn count_ascii_uppercase_and_lowercase(&self) -> (r: usize)
        ensures
            r == count_in_class(self.text(), CharClass::AsciiUppercase) + count_in_class(
                self.text(),
                CharClass::AsciiLowercase,
            ) || (r == usize::MAX && count_in_class(self.text(), CharClass::AsciiUppercase)
                + count_in_class(self.text(), CharClass::AsciiLowercase) > usize::MAX),
    {
        let upper = self.count_ascii_uppercase();
        let lower = self.count_ascii_lowercase();
        upper.saturating_add(lower)
    }

    pub fn has_ascii_digit(&self) -> (r: bool)
        ensures
            r == has_in_class(self.text(), CharClass::AsciiDigit),
    {
        has_class(self.0, CharClass::AsciiDigit)
    }

    pub fn count_ascii_digit(&self) -> (r: usize)
        ensures
            r == count_in_class(self.text(), CharClass::AsciiDigit),
    {
        count_class(self.0, CharClass::AsciiDigit)
    }

    pub fn has_ascii_alphanumeric(&self) -> (r: bool)
        ensures
            r == has_in_class(self.text(), CharClass::AsciiAlphanumeric),
    {
        has_class(self.0, CharClass::AsciiAlphanumeric)
    }

    pub fn count_ascii_alphanumeric(&self) -> (r: usize)
        ensures
            r == count_in_class(self.text(), CharClass::AsciiAlphanumeric),
    {
        count_class(self.0, CharClass::AsciiAlphanumeric)
    }
}

/// Gives a text its validator.
pub trait StrValidationExtension {
    spec fn chars(&self) -> Seq<char>;

    fn as_string_validator(&self) -> (r: StringValidator<'_>)
        ensures
            r.text() == self.chars(),
    ;
}

impl<'b> StrValidationExtension for &'b str {
    open spec fn chars(&self) -> Seq<char> {
        (*self)@
    }

    fn as_string_validator(&self) -> (r: StringValidator<'_>) {
        StringValidator::new(*self)
    }
}

impl StrValidationExtension for String {
    open spec fn chars(&self) -> Seq<char> {
        self@
    }

    fn as_string_validator(&self) -> (r: StringValidator<'_>) {
        StringValidator::new(self.as_str())
    }
}

} // verus!
