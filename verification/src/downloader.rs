//! Downloading a list of resources into one directory: where each one goes.
use vstd::prelude::*;
use vstd::slice::slice_to_vec;
use crate::paths::{join, path_join};
use crate::urls::{url_filename, url_filename_of};

verus! {

/// Each string of a sequence by its characters.
pub open spec fn string_views(s: Seq<String>) -> Seq<Seq<char>> {
    s.map_values(|a: String| a@)
}

/// Resources to download and the directory they are saved in.
pub struct Downloader {
    urls: Vec<String>,
    savedir: Vec<u8>,
}

/// Where a resource is saved in `savedir`: under the last path segment of
/// its URL, `None` where the URL has none.
pub open spec fn download_path_under(savedir: Seq<u8>, url: Seq<char>) -> Option<Seq<u8>> {
    match url_filename_of(url) {
        Some(f) => Some(path_join(savedir, f)),
        None => None,
    }
}

impl Downloader {
    /// The URLs, in order.
    pub closed spec fn url_views(&self) -> Seq<Seq<char>> {
        string_views(self.urls@)
    }

    /// The directory the resources are saved in.
    pub closed spec fn savedir_view(&self) -> Seq<u8> {
        self.savedir@
    }

    /// A downloader for `urls` that saves into `savedir`.
    pub fn new(urls: Vec<String>, savedir: &[u8]) -> (res: Self)
        ensures
            res.url_views() == string_views(urls@),
            res.savedir_view() == savedir@,
    {
        Downloader { urls, savedir: slice_to_vec(savedir) }
    }

    /// The number of resources.
    pub fn len(&self) -> (res: usize)
        ensures
            res == self.url_views().len(),
    {
        self.urls.len()
    }

    /// The URL of the `i`-th resource.
    pub fn url(&self, i: usize) -> (res: &String)
        requires
            i < self.url_views().len(),
        ensures
            res@ == self.url_views()[i as int],
    {
        &self.urls[i]
    }

    /// The directory the resources are saved in.
    pub fn savedir(&self) -> (res: &Vec<u8>)
        ensures
            res@ == self.savedir_view(),
    {
        &self.savedir
    }

    /// Where the `i`-th resource is saved: the save directory joined with the
    /// last path segment of its URL, which must have one.
    pub fn savepath_for(&self, i: usize) -> (res: Vec<u8>)
        requires
            i < self.url_views().len(),
            url_filename_of(self.url_views()[i as int]) is Some,
        ensures
            download_path_under(self.savedir_view(), self.url_views()[i as int]) == Some(res@),
    {
        let filename = match url_filename(self.urls[i].as_str()) {
            Some(f) => f,
            None => Vec::new(),
        };
        join(self.savedir.as_slice(), filename.as_slice())
    }

    /// Where the `i`-th resource is saved where its URL names a file: `None`
    /// where the URL does not parse or has no path segment; otherwise what
    /// `savepath_for` gives.
    pub fn savepath_checked(&self, i: usize) -> (res: Option<Vec<u8>>)
        requires
            i < self.url_views().len(),
        ensures
            match res {
                Some(p) => download_path_under(self.savedir_view(), self.url_views()[i as int]) == Some(p@),
                None => download_path_under(self.savedir_view(), self.url_views()[i as int]) is None,
            },
    {
        match url_filename(self.urls[i].as_str()) {
            Some(_) => Some(self.savepath_for(i)),
            None => None,
        }
    }

    /// Where every resource is saved, in order; `None` where some URL has no
    /// path segment.
    pub fn savepaths(&self) -> (res: Option<Vec<Vec<u8>>>)
        ensures
            match res {
                Some(ps) => {
                    &&& ps@.len() == self.url_views().len()
                    &&& forall|k: int|
                        0 <= k < ps@.len() ==> download_path_under(
                            self.savedir_view(),
                            #[trigger] self.url_views()[k],
                        ) == Some(ps@[k]@)
                },
                None => exists|k: int|
                    0 <= k < self.url_views().len() && download_path_under(
                        self.savedir_view(),
                        #[trigger] self.url_views()[k],
                    ) is None,
            },
    {
        let mut ps: Vec<Vec<u8>> = Vec::new();
        let n = self.urls.len();
        let mut i: usize = 0;
        while i < n
            invariant
                n == self.url_views().len(),
                i <= n,
                ps@.len() == i,
                forall|k: int|
                    0 <= k < i ==> download_path_under(
                        self.savedir_view(),
                        #[trigger] self.url_views()[k],
                    ) == Some(ps@[k]@),
            decreases n - i,
        {
            match self.savepath_checked(i) {
                Some(p) => {
                    ps.push(p);
                },
                None => {
                    return None;
                },
            }
            i = i + 1;
        }
        Some(ps)
    }
}

} // verus!
