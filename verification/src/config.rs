//! The registry of redirect rules.
//!
//! The registry is an ordered table of [`ProxyItem`]s with the time of its
//! last change. A lookup is an exact comparison of the whole URL text; the
//! first rule that matches wins.

use vstd::prelude::*;
use vstd::string::*;

use crate::clock::now_millis;
use crate::item::{ProxyItem, ProxyItemView};
use crate::text::str_eq;
use crate::uri::{url_is_valid, verify_url};

verus! {

pub struct LopxyConfig {
    proxy_items: Vec<ProxyItem>,
    timestamp: i64,
}

/// The mathematical value of a [`LopxyConfig`].
pub ghost struct LopxyConfigView {
    pub proxy_items: Seq<ProxyItemView>,
    pub timestamp: i64,
}

/// The values of a list of rules.
pub open spec fn items_view(items: Seq<ProxyItem>) -> Seq<ProxyItemView> {
    items.map_values(|item: ProxyItem| item@)
}

impl View for LopxyConfig {
    type V = LopxyConfigView;

    closed spec fn view(&self) -> LopxyConfigView {
        LopxyConfigView { proxy_items: items_view(self.proxy_items@), timestamp: self.timestamp }
    }
}

/// Whether some rule has `url` as its key.
pub open spec fn spec_item_exists(items: Seq<ProxyItemView>, url: Seq<char>) -> bool {
    exists|i: int| 0 <= i < items.len() && (#[trigger] items[i]).resource_url == url
}

/// The position of the first rule at or after `from` whose key is `url`, or
/// the length of the table where there is none.
pub open spec fn spec_find_from(items: Seq<ProxyItemView>, url: Seq<char>, from: int) -> int
    decreases items.len() - from,
{
    if from < 0 || from >= items.len() {
        items.len() as int
    } else if items[from].resource_url == url {
        from
    } else {
        spec_find_from(items, url, from + 1)
    }
}

/// The rule that a request for `url` is answered with.
pub open spec fn spec_redirect(items: Seq<ProxyItemView>, url: Seq<char>) -> Option<ProxyItemView> {
    let at = spec_find_from(items, url, 0);
    if at < items.len() {
        Some(items[at])
    } else {
        None
    }
}

/// Whether `add` takes the rule: the key is new and both URLs parse.
pub open spec fn spec_add_accepts(items: Seq<ProxyItemView>, url: Seq<char>, target: Seq<char>) -> bool {
    !spec_item_exists(items, url) && url_is_valid(url) && url_is_valid(target)
}

/// The table after `add`.
pub open spec fn spec_add_items(
    items: Seq<ProxyItemView>,
    url: Seq<char>,
    target: Seq<char>,
    content_type: Seq<char>,
) -> Seq<ProxyItemView> {
    if spec_add_accepts(items, url, target) {
        items.push(ProxyItemView { resource_url: url, proxy_resource_url: target, content_type })
    } else {
        items
    }
}

/// The table after `remove`: every rule with that key is gone.
pub open spec fn spec_remove_items(items: Seq<ProxyItemView>, url: Seq<char>) -> Seq<ProxyItemView> {
    items.filter(|item: ProxyItemView| item.resource_url != url)
}

/// Whether `modify` succeeds: the target parses, and the key either exists or
/// parses itself, so that the rule can be added.
pub open spec fn spec_modify_accepts(items: Seq<ProxyItemView>, url: Seq<char>, target: Seq<char>) -> bool {
    url_is_valid(target) && (spec_item_exists(items, url) || url_is_valid(url))
}

/// The table after `modify`.
pub open spec fn spec_modify_items(
    items: Seq<ProxyItemView>,
    url: Seq<char>,
    target: Seq<char>,
    content_type: Seq<char>,
) -> Seq<ProxyItemView> {
    if !url_is_valid(target) {
        items
    } else if spec_item_exists(items, url) {
        items.update(
            spec_find_from(items, url, 0),
            ProxyItemView { resource_url: url, proxy_resource_url: target, content_type },
        )
    } else {
        spec_add_items(items, url, target, content_type)
    }
}

/// The time of the last change after an operation at time `now`: a change
/// moves it to `now`, or one millisecond on where the clock has not moved
/// past it, so that every change shows.
pub open spec fn spec_touch(timestamp: i64, changed: bool, now: i64) -> i64 {
    if !changed {
        timestamp
    } else if now > timestamp {
        now
    } else if timestamp < i64::MAX {
        (timestamp + 1) as i64
    } else {
        timestamp
    }
}

/// What `spec_find_from` finds is the first match at or after `from`.
pub proof fn lemma_find_from(items: Seq<ProxyItemView>, url: Seq<char>, from: int)
    requires
        0 <= from <= items.len(),
    ensures
        from <= spec_find_from(items, url, from) <= items.len(),
        spec_find_from(items, url, from) < items.len() ==> items[spec_find_from(
            items,
            url,
            from,
        )].resource_url == url,
        forall|k: int| from <= k < spec_find_from(items, url, from) ==> (#[trigger] items[k]).resource_url != url,
    decreases items.len() - from,
{
    if from < items.len() && items[from].resource_url != url {
        lemma_find_from(items, url, from + 1);
    }
}

/// A key exists exactly where the search from the start finds it.
pub proof fn lemma_exists_iff_found(items: Seq<ProxyItemView>, url: Seq<char>)
    ensures
        spec_item_exists(items, url) <==> spec_find_from(items, url, 0) < items.len(),
        spec_item_exists(items, url) <==> spec_redirect(items, url) is Some,
{
    lemma_find_from(items, url, 0);
}

impl LopxyConfig {
    /// The empty registry.
    pub fn new() -> (res: LopxyConfig)
        ensures
            res@.proxy_items == Seq::<ProxyItemView>::empty(),
            res@.timestamp == 0,
    {
        let res = LopxyConfig { proxy_items: Vec::new(), timestamp: 0 };
        assert(items_view(res.proxy_items@) =~= Seq::<ProxyItemView>::empty());
        res
    }

    /// A registry with the given rules and time of last change, as read from
    /// storage.
    pub fn from_items(proxy_items: Vec<ProxyItem>, timestamp: i64) -> (res: LopxyConfig)
        ensures
            res@.proxy_items == items_view(proxy_items@),
            res@.timestamp == timestamp,
    {
        LopxyConfig { proxy_items, timestamp }
    }

    pub fn proxy_item_list(&self) -> (res: &Vec<ProxyItem>)
        ensures
            items_view(res@) == self@.proxy_items,
    {
        &self.proxy_items
    }

    pub fn proxy_item_count(&self) -> (res: usize)
        ensures
            res == self@.proxy_items.len(),
    {
        self.proxy_items.len()
    }

    /// The time of the last successful change, in milliseconds.
    pub fn timestamp(&self) -> (res: i64)
        ensures
            res == self@.timestamp,
    {
        self.timestamp
    }

    /// Moves the time of the last change on.
    fn touch(&mut self, now: i64)
        ensures
            final(self).timestamp == spec_touch(old(self).timestamp, true, now),
            final(self).proxy_items == old(self).proxy_items,
    {
        if now > self.timestamp {
            self.timestamp = now;
        } else if self.timestamp < i64::MAX {
            self.timestamp = self.timestamp + 1;
        }
    }

    /// The position of the first rule whose key is `resource_url`, or the
    /// number of rules.
    fn find(&self, resource_url: &str) -> (res: usize)
        ensures
            res == spec_find_from(self@.proxy_items, resource_url@, 0),
            res <= self.proxy_items@.len(),
    {
        let ghost items = self@.proxy_items;
        let mut i: usize = 0;
        while i < self.proxy_items.len()
            invariant
                i <= self.proxy_items@.len(),
                items == items_view(self.proxy_items@),
                spec_find_from(items, resource_url@, i as int) == spec_find_from(items, resource_url@, 0),
            decreases self.proxy_items@.len() - i,
        {
            if str_eq(self.proxy_items[i].resource_url(), resource_url) {
                return i;
            }
            i += 1;
        }
        i
    }

    /// The rule registered for exactly this URL, if there is one.
    pub fn proxy_redirect(&self, resource_url: &str) -> (res: Option<ProxyItem>)
        ensures
            match res {
                Some(item) => spec_redirect(self@.proxy_items, resource_url@) == Some(item@),
                None => spec_redirect(self@.proxy_items, resource_url@) is None,
            },
    {
        let at: usize = self.find(resource_url);
        if at < self.proxy_items.len() {
            Some(self.proxy_items[at].clone())
        } else {
            None
        }
    }

    pub fn proxy_item_exists(&self, resource_url: &str) -> (res: bool)
        ensures
            res == spec_item_exists(self@.proxy_items, resource_url@),
    {
        let at: usize = self.find(resource_url);
        proof {
            lemma_exists_iff_found(self@.proxy_items, resource_url@);
        }
        at < self.proxy_items.len()
    }

    /// Adds a rule at time `now`. The rule is refused, and nothing changes,
    /// where the key is already registered or one of the URLs does not parse.
    pub fn add_proxy_item_at(
        &mut self,
        resource_url: &str,
        proxy_resource_url: &str,
        content_type: &str,
        now: i64,
    ) -> (res: bool)
        ensures
            res == spec_add_accepts(old(self)@.proxy_items, resource_url@, proxy_resource_url@),
            final(self)@.proxy_items == spec_add_items(
                old(self)@.proxy_items,
                resource_url@,
                proxy_resource_url@,
                content_type@,
            ),
            final(self)@.timestamp == spec_touch(old(self)@.timestamp, res, now),
    {
        if self.proxy_item_exists(resource_url) {
            return false;
        }
        if !verify_url(resource_url) || !verify_url(proxy_resource_url) {
            return false;
        }
        let item = ProxyItem::new(resource_url, proxy_resource_url, content_type);
        self.proxy_items.push(item);
        self.touch(now);
        assert(items_view(self.proxy_items@) =~= items_view(old(self).proxy_items@).push(item@));
        true
    }

    /// Adds a rule, stamped with the current time.
    pub fn add_proxy_item(&mut self, resource_url: &str, proxy_resource_url: &str, content_type: &str) -> (res:
        bool)
        ensures
            res == spec_add_accepts(old(self)@.proxy_items, resource_url@, proxy_resource_url@),
            final(self)@.proxy_items == spec_add_items(
                old(self)@.proxy_items,
                resource_url@,
                proxy_resource_url@,
                content_type@,
            ),
            !res ==> final(self)@.timestamp == old(self)@.timestamp,
            final(self)@.timestamp >= old(self)@.timestamp,
            res && old(self)@.timestamp < i64::MAX ==> final(self)@.timestamp > old(self)@.timestamp,
    {
        let now: i64 = now_millis();
        self.add_proxy_item_at(resource_url, proxy_resource_url, content_type, now)
    }

    /// Removes every rule with this key at time `now`; `false`, and nothing
    /// changes, where there is none.
    pub fn remove_proxy_item_at(&mut self, resource_url: &str, now: i64) -> (res: bool)
        ensures
            res == spec_item_exists(old(self)@.proxy_items, resource_url@),
            final(self)@.proxy_items == spec_remove_items(old(self)@.proxy_items, resource_url@),
            !res ==> final(self)@.proxy_items == old(self)@.proxy_items,
            final(self)@.timestamp == spec_touch(old(self)@.timestamp, res, now),
    {
        let ghost items = self@.proxy_items;
        if !self.proxy_item_exists(resource_url) {
            proof {
                lemma_remove_absent(items, resource_url@);
            }
            return false;
        }
        let mut kept: Vec<ProxyItem> = Vec::new();
        let mut i: usize = 0;
        while i < self.proxy_items.len()
            invariant
                i <= self.proxy_items@.len(),
                items == items_view(self.proxy_items@),
                items_view(kept@) == spec_remove_items(items.subrange(0, i as int), resource_url@),
            decreases self.proxy_items@.len() - i,
        {
            let ghost before = items.subrange(0, i as int);
            let ghost after = items.subrange(0, i + 1);
            proof {
                assert(after.drop_last() =~= before);
                assert(after.last() == items[i as int]);
                reveal(Seq::filter);
            }
            if !str_eq(self.proxy_items[i].resource_url(), resource_url) {
                let item = self.proxy_items[i].clone();
                kept.push(item);
                assert(items_view(kept@) =~= spec_remove_items(before, resource_url@).push(items[i as int]));
            }
            i += 1;
        }
        assert(items.subrange(0, i as int) =~= items);
        self.proxy_items = kept;
        self.touch(now);
        true
    }

    /// Removes every rule with this key, stamping the change with the current
    /// time.
    pub fn remove_proxy_item(&mut self, resource_url: &str) -> (res: bool)
        ensures
            res == spec_item_exists(old(self)@.proxy_items, resource_url@),
            final(self)@.proxy_items == spec_remove_items(old(self)@.proxy_items, resource_url@),
            !res ==> final(self)@ == old(self)@,
            final(self)@.timestamp >= old(self)@.timestamp,
            res && old(self)@.timestamp < i64::MAX ==> final(self)@.timestamp > old(self)@.timestamp,
    {
        let now: i64 = now_millis();
        self.remove_proxy_item_at(resource_url, now)
    }

    /// Changes the target and content type of the rule with this key at time
    /// `now`. Only the new target is checked before an existing rule is
    /// changed; where the key is not registered the call is an `add`.
    pub fn modify_proxy_item_at(
        &mut self,
        resource_url: &str,
        proxy_resource_url: &str,
        content_type: &str,
        now: i64,
    ) -> (res: bool)
        ensures
            res == spec_modify_accepts(old(self)@.proxy_items, resource_url@, proxy_resource_url@),
            final(self)@.proxy_items == spec_modify_items(
                old(self)@.proxy_items,
                resource_url@,
                proxy_resource_url@,
                content_type@,
            ),
            final(self)@.timestamp == spec_touch(old(self)@.timestamp, res, now),
    {
        if !verify_url(proxy_resource_url) {
            return false;
        }
        let at: usize = self.find(resource_url);
        proof {
            lemma_exists_iff_found(self@.proxy_items, resource_url@);
            lemma_find_from(self@.proxy_items, resource_url@, 0);
        }
        if at < self.proxy_items.len() {
            let item = ProxyItem::new(self.proxy_items[at].resource_url(), proxy_resource_url, content_type);
            self.proxy_items.set(at, item);
            self.touch(now);
            assert(items_view(self.proxy_items@) =~= items_view(old(self).proxy_items@).update(
                at as int,
                item@,
            ));
            return true;
        }
        self.add_proxy_item_at(resource_url, proxy_resource_url, content_type, now)
    }

    /// Changes the target and content type of a rule, stamping the change with
    /// the current time.
    pub fn modify_proxy_item(&mut self, resource_url: &str, proxy_resource_url: &str, content_type: &str) -> (res:
        bool)
        ensures
            res == spec_modify_accepts(old(self)@.proxy_items, resource_url@, proxy_resource_url@),
            final(self)@.proxy_items == spec_modify_items(
                old(self)@.proxy_items,
                resource_url@,
                proxy_resource_url@,
                content_type@,
            ),
            !res ==> final(self)@.timestamp == old(self)@.timestamp,
            final(self)@.timestamp >= old(self)@.timestamp,
            res && old(self)@.timestamp < i64::MAX ==> final(self)@.timestamp > old(self)@.timestamp,
    {
        let now: i64 = now_millis();
        self.modify_proxy_item_at(resource_url, proxy_resource_url, content_type, now)
    }
}

/// Removing a key that no rule has leaves the table as it is.
pub proof fn lemma_remove_absent(items: Seq<ProxyItemView>, url: Seq<char>)
    requires
        !spec_item_exists(items, url),
    ensures
        spec_remove_items(items, url) == items,
    decreases items.len(),
{
    reveal(Seq::filter);
    if items.len() > 0 {
        let front = items.drop_last();
        assert forall|i: int| 0 <= i < front.len() implies (#[trigger] front[i]).resource_url != url by {
            assert(items[i] == front[i]);
        }
        lemma_remove_absent(front, url);
        assert(items.last() == items[items.len() - 1]);
        assert(front.push(items.last()) =~= items);
    }
}

/// A rule that was added is the one that a lookup of its key returns, and a
/// second `add` under the same key is refused and changes nothing, whatever
/// target and content type it brings.
pub proof fn lemma_add_then_lookup(
    items: Seq<ProxyItemView>,
    url: Seq<char>,
    target: Seq<char>,
    content_type: Seq<char>,
    other_target: Seq<char>,
    other_content_type: Seq<char>,
)
    requires
        spec_add_accepts(items, url, target),
    ensures
        spec_redirect(spec_add_items(items, url, target, content_type), url) == Some(
            ProxyItemView { resource_url: url, proxy_resource_url: target, content_type },
        ),
        !spec_add_accepts(spec_add_items(items, url, target, content_type), url, other_target),
        spec_add_items(
            spec_add_items(items, url, target, content_type),
            url,
            other_target,
            other_content_type,
        ) == spec_add_items(items, url, target, content_type),
{
    let added = spec_add_items(items, url, target, content_type);
    lemma_find_from(added, url, 0);
    let at = spec_find_from(added, url, 0);
    assert(added[items.len() as int].resource_url == url);
    if at < items.len() {
        assert(items[at] == added[at]);
    }
}

/// After `remove` a lookup of the key finds nothing.
pub proof fn lemma_remove_then_lookup(items: Seq<ProxyItemView>, url: Seq<char>)
    ensures
        spec_redirect(spec_remove_items(items, url), url) is None,
        !spec_item_exists(spec_remove_items(items, url), url),
{
    let pred = |item: ProxyItemView| item.resource_url != url;
    let kept = spec_remove_items(items, url);
    assert forall|i: int| 0 <= i < kept.len() implies (#[trigger] kept[i]).resource_url != url by {
        items.lemma_filter_pred(pred, i);
    }
    lemma_exists_iff_found(kept, url);
}

/// `modify` of a registered key, with a target that parses, succeeds, changes
/// the target and the content type of the rule that a lookup returns, and
/// leaves every key and the size of the table as they were.
pub proof fn lemma_modify_existing(
    items: Seq<ProxyItemView>,
    url: Seq<char>,
    target: Seq<char>,
    content_type: Seq<char>,
)
    requires
        spec_item_exists(items, url),
        url_is_valid(target),
    ensures
        spec_modify_accepts(items, url, target),
        spec_modify_items(items, url, target, content_type).len() == items.len(),
        forall|i: int|
            0 <= i < items.len() ==> (#[trigger] spec_modify_items(
                items,
                url,
                target,
                content_type,
            )[i]).resource_url == items[i].resource_url,
        spec_redirect(spec_modify_items(items, url, target, content_type), url) == Some(
            ProxyItemView { resource_url: url, proxy_resource_url: target, content_type },
        ),
{
    let changed = spec_modify_items(items, url, target, content_type);
    lemma_exists_iff_found(items, url);
    lemma_find_from(items, url, 0);
    lemma_find_from(changed, url, 0);
    let at = spec_find_from(items, url, 0);
    let found = spec_find_from(changed, url, 0);
    assert(changed[at].resource_url == url);
    if found < at {
        assert(changed[found] == items[found]);
    }
}

/// `modify` of a key that is not registered is an `add`.
pub proof fn lemma_modify_absent(
    items: Seq<ProxyItemView>,
    url: Seq<char>,
    target: Seq<char>,
    content_type: Seq<char>,
)
    requires
        !spec_item_exists(items, url),
    ensures
        spec_modify_accepts(items, url, target) == spec_add_accepts(items, url, target),
        spec_modify_items(items, url, target, content_type) == spec_add_items(items, url, target, content_type),
{
}

/// No two rules share a key, and every URL in the table parses.
pub open spec fn spec_well_formed(items: Seq<ProxyItemView>) -> bool {
    &&& forall|i: int, j: int|
        0 <= i < j < items.len() ==> (#[trigger] items[i]).resource_url != (#[trigger] items[j]).resource_url
    &&& forall|i: int|
        0 <= i < items.len() ==> url_is_valid((#[trigger] items[i]).resource_url) && url_is_valid(
            items[i].proxy_resource_url,
        )
}

/// `add`, `remove` and `modify` keep a well-formed table well formed, and the
/// empty table is well formed.
pub proof fn lemma_well_formed_preserved(
    items: Seq<ProxyItemView>,
    url: Seq<char>,
    target: Seq<char>,
    content_type: Seq<char>,
)
    requires
        spec_well_formed(items),
    ensures
        spec_well_formed(Seq::<ProxyItemView>::empty()),
        spec_well_formed(spec_add_items(items, url, target, content_type)),
        spec_well_formed(spec_remove_items(items, url)),
        spec_well_formed(spec_modify_items(items, url, target, content_type)),
{
    lemma_exists_iff_found(items, url);
    lemma_find_from(items, url, 0);
    lemma_remove_well_formed(items, url);
}

/// Every rule that `remove` keeps was in the table.
pub proof fn lemma_remove_members(items: Seq<ProxyItemView>, url: Seq<char>, i: int)
    requires
        0 <= i < spec_remove_items(items, url).len(),
    ensures
        exists|a: int| 0 <= a < items.len() && items[a] == spec_remove_items(items, url)[i],
    decreases items.len(),
{
    reveal(Seq::filter);
    if items.len() > 0 {
        let front = items.drop_last();
        let kept_front = spec_remove_items(front, url);
        if i < kept_front.len() {
            lemma_remove_members(front, url, i);
            let a = choose|a: int| 0 <= a < front.len() && front[a] == kept_front[i];
            assert(items[a] == front[a]);
        } else {
            assert(items[items.len() - 1] == spec_remove_items(items, url)[i]);
        }
    }
}

/// `remove` keeps a well-formed table well formed.
pub proof fn lemma_remove_well_formed(items: Seq<ProxyItemView>, url: Seq<char>)
    requires
        spec_well_formed(items),
    ensures
        spec_well_formed(spec_remove_items(items, url)),
    decreases items.len(),
{
    reveal(Seq::filter);
    if items.len() > 0 {
        let front = items.drop_last();
        let last = items.last();
        let kept_front = spec_remove_items(front, url);
        let kept = spec_remove_items(items, url);
        assert forall|i: int| 0 <= i < front.len() implies front[i] == items[i] by {}
        assert(spec_well_formed(front));
        lemma_remove_well_formed(front, url);
        if last.resource_url != url {
            assert(kept == kept_front.push(last));
            assert(last == items[items.len() - 1]);
            assert forall|i: int| 0 <= i < kept_front.len() implies (#[trigger] kept_front[i]).resource_url
                != last.resource_url by {
                lemma_remove_members(front, url, i);
                let a = choose|a: int| 0 <= a < front.len() && front[a] == kept_front[i];
                assert(items[a] == front[a]);
            }
            assert forall|i: int, j: int| 0 <= i < j < kept.len() implies (#[trigger] kept[i]).resource_url != (
            #[trigger] kept[j]).resource_url by {
                if j < kept_front.len() {
                    assert(kept[i] == kept_front[i] && kept[j] == kept_front[j]);
                } else {
                    assert(kept[i] == kept_front[i]);
                }
            }
            assert forall|i: int| 0 <= i < kept.len() implies url_is_valid((#[trigger] kept[i]).resource_url)
                && url_is_valid(kept[i].proxy_resource_url) by {
                if i < kept_front.len() {
                    assert(kept[i] == kept_front[i]);
                }
            }
        }
    }
}

/// Every change moves the time of the last change forward, whatever the
/// clock says, and nothing else moves it at all.
pub proof fn lemma_touch_moves_forward(timestamp: i64, changed: bool, now: i64)
    ensures
        spec_touch(timestamp, changed, now) >= timestamp,
        changed && timestamp < i64::MAX ==> spec_touch(timestamp, changed, now) > timestamp,
        !changed ==> spec_touch(timestamp, changed, now) == timestamp,
{
}

} // verus!
