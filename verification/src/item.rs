//! A redirect rule: one exact resource URL and the target that replaces it.

use vstd::prelude::*;
use vstd::string::*;

verus! {

/// One redirect rule. `resource_url` is the key that requests are matched
/// against, `proxy_resource_url` the target that is served in its place and
/// `content_type` the MIME type sent with a `file` target.
pub struct ProxyItem {
    resource_url: String,
    proxy_resource_url: String,
    content_type: String,
}

/// The mathematical value of a [`ProxyItem`].
pub ghost struct ProxyItemView {
    pub resource_url: Seq<char>,
    pub proxy_resource_url: Seq<char>,
    pub content_type: Seq<char>,
}

impl View for ProxyItem {
    type V = ProxyItemView;

    closed spec fn view(&self) -> ProxyItemView {
        ProxyItemView {
            resource_url: self.resource_url@,
            proxy_resource_url: self.proxy_resource_url@,
            content_type: self.content_type@,
        }
    }
}

impl Clone for ProxyItem {
    fn clone(&self) -> (res: Self)
        ensures
            res@ == self@,
    {
        ProxyItem {
            resource_url: self.resource_url.clone(),
            proxy_resource_url: self.proxy_resource_url.clone(),
            content_type: self.content_type.clone(),
        }
    }
}

impl ProxyItem {
    pub fn new(resource_url: &str, proxy_resource_url: &str, content_type: &str) -> (res: ProxyItem)
        ensures
            res@ == (ProxyItemView {
                resource_url: resource_url@,
                proxy_resource_url: proxy_resource_url@,
                content_type: content_type@,
            }),
    {
        ProxyItem {
            resource_url: resource_url.to_owned(),
            proxy_resource_url: proxy_resource_url.to_owned(),
            content_type: content_type.to_owned(),
        }
    }

    pub fn resource_url(&self) -> (res: &str)
        ensures
            res@ == self@.resource_url,
    {
        self.resource_url.as_str()
    }

    pub fn proxy_resource_url(&self) -> (res: &str)
        ensures
            res@ == self@.proxy_resource_url,
    {
        self.proxy_resource_url.as_str()
    }

    pub fn content_type(&self) -> (res: &str)
        ensures
            res@ == self@.content_type,
    {
        self.content_type.as_str()
    }

    pub fn update_proxy_resource_url(&mut self, proxy_resource_url: &str)
        ensures
            final(self)@ == (ProxyItemView { proxy_resource_url: proxy_resource_url@, ..old(self)@ }),
    {
        self.proxy_resource_url = proxy_resource_url.to_owned();
    }

    pub fn update_resource_content_type(&mut self, content_type: &str)
        ensures
            final(self)@ == (ProxyItemView { content_type: content_type@, ..old(self)@ }),
    {
        self.content_type = content_type.to_owned();
    }
}

} // verus!
