use vstd::prelude::*;
use vstd::string::*;

use crate::comment::Comment;
use crate::model::{
    added, added_all, has_id, last_with_id, lemma_added_unique, lemma_remove_id_absent,
    lemma_remove_id_at, lemma_remove_id_unique, remove_id, ids_unique, on_path, sorted_by_time,
};
use crate::persistence::DOCUMENT_EXTENSION;
use crate::notifier::Notifier;
use crate::persistence::{document_file_name, document_name};
use crate::reload::ReloadCoordinator;

verus! {

/// Why a write to the document store did not take effect.
#[derive(Clone, Copy, Debug, PartialEq, Eq, Structural)]
pub enum StoreError {
    /// The document of a comment could not be written.
    WriteFailure,
    /// The document of a comment could not be deleted.
    DeleteFailure,
    /// No document or cached entry exists for the comment.
    NotFound,
}

/// The in-memory working set of comments over a root directory of documents,
/// one per comment, with the flag that asks for a reload from those documents.
///
/// Whoever shares a repository between threads guards it as a whole: every
/// method that changes it takes `&mut self`, so a reload replaces the cache in
/// one step and no reader sees it half rebuilt.
pub struct CommentRepository {
    path: String,
    comments: Vec<Comment>,
    notifier: Option<Notifier>,
    reload: ReloadCoordinator,
}

impl View for CommentRepository {
    type V = Seq<Comment>;

    /// The cached comments.
    closed spec fn view(&self) -> Seq<Comment> {
        self.comments@
    }
}

impl CommentRepository {
    /// The root directory of the documents.
    pub closed spec fn root(&self) -> Seq<char> {
        self.path@
    }

    /// Whether a reload from the documents is pending.
    pub closed spec fn reload_pending(&self) -> bool {
        self.reload@
    }

    /// Who hears of newly saved comments, if anyone.
    pub closed spec fn notifier_spec(&self) -> Option<Notifier> {
        self.notifier
    }

    /// No two cached comments share an identifier.
    pub open spec fn wf(&self) -> bool {
        ids_unique(self@)
    }

    /// Everything but the cache is as in `other`.
    pub open spec fn same_setup(&self, other: &CommentRepository) -> bool {
        &&& self.root() == other.root()
        &&& self.reload_pending() == other.reload_pending()
        &&& self.notifier_spec() == other.notifier_spec()
    }

    /// An empty repository over the root directory `path`, with a reload
    /// pending so that the first access loads the documents.
    pub fn new(path: &str) -> (r: CommentRepository)
        ensures
            r.wf(),
            r@ == Seq::<Comment>::empty(),
            r.root() == path@,
            r.reload_pending(),
            r.notifier_spec() == None::<Notifier>,
    {
        CommentRepository {
            path: path.to_owned(),
            comments: Vec::new(),
            notifier: None,
            reload: ReloadCoordinator::new(),
        }
    }

    /// The root directory of the documents.
    pub fn root_path(&self) -> (r: &str)
        ensures
            r@ == self.root(),
    {
        self.path.as_str()
    }

    /// Sets or clears the reload flag.
    pub fn set_reload_flag(&mut self, pending: bool)
        ensures
            final(self)@ == old(self)@,
            final(self).reload_pending() == pending,
            final(self).root() == old(self).root(),
            final(self).notifier_spec() == old(self).notifier_spec(),
    {
        if pending {
            self.reload.request_reload();
        } else {
            self.reload.consume_reload_request();
        }
    }

    /// Reads and clears the reload flag in one step, telling whether a reload
    /// was pending.
    pub fn consume_reload_request(&mut self) -> (r: bool)
        ensures
            r == old(self).reload_pending(),
            !final(self).reload_pending(),
            final(self)@ == old(self)@,
            final(self).root() == old(self).root(),
            final(self).notifier_spec() == old(self).notifier_spec(),
    {
        self.reload.consume_reload_request()
    }

    /// Makes `notifier` hear of every comment saved from now on.
    pub fn set_notifier(&mut self, notifier: Notifier)
        ensures
            final(self)@ == old(self)@,
            final(self).notifier_spec() == Some(notifier),
            final(self).root() == old(self).root(),
            final(self).reload_pending() == old(self).reload_pending(),
    {
        self.notifier = Some(notifier);
    }

    /// Who hears of newly saved comments, if anyone.
    pub fn notifier(&self) -> (r: Option<Notifier>)
        ensures
            r == self.notifier_spec(),
    {
        match &self.notifier {
            Some(n) => Some(n.duplicate()),
            None => None,
        }
    }

    /// A snapshot of every cached comment.
    pub fn all_comments(&self) -> (r: Vec<Comment>)
        ensures
            r@ == self@,
    {
        let mut out: Vec<Comment> = Vec::new();
        let mut i: usize = 0;
        while i < self.comments.len()
            invariant
                0 <= i <= self.comments@.len(),
                out@ == self.comments@.subrange(0, i as int),
            decreases self.comments@.len() - i,
        {
            out.push(self.comments[i].duplicate());
            proof {
                assert(out@ =~= self.comments@.subrange(0, i as int + 1));
            }
            i = i + 1;
        }
        proof {
            assert(out@ =~= self.comments@);
        }
        out
    }

    /// The last cached comment with identifier `id`, if any.
    pub fn comment_with_id(&self, id: u128) -> (r: Option<Comment>)
        ensures
            r == last_with_id(self@, id),
    {
        let mut i: usize = self.comments.len();
        proof {
            assert(self.comments@.subrange(0, i as int) =~= self.comments@);
        }
        while i > 0
            invariant
                0 <= i <= self.comments@.len(),
                last_with_id(self.comments@, id) == last_with_id(
                    self.comments@.subrange(0, i as int),
                    id,
                ),
            decreases i,
        {
            let ghost prefix = self.comments@.subrange(0, i as int);
            proof {
                assert(prefix.drop_last() =~= self.comments@.subrange(0, i - 1));
            }
            if self.comments[i - 1].id == id {
                return Some(self.comments[i - 1].duplicate());
            }
            i = i - 1;
        }
        None
    }

    /// Position of the first cached comment with identifier `id`, if any.
    fn position_of(&self, id: u128) -> (r: Option<usize>)
        ensures
            match r {
                Some(i) => {
                    &&& i < self@.len()
                    &&& self@[i as int].id == id
                    &&& forall|j: int| 0 <= j < i ==> #[trigger] self@[j].id != id
                },
                None => !has_id(self@, id),
            },
    {
        let mut i: usize = 0;
        while i < self.comments.len()
            invariant
                0 <= i <= self.comments@.len(),
                forall|j: int| 0 <= j < i ==> #[trigger] self.comments@[j].id != id,
            decreases self.comments@.len() - i,
        {
            if self.comments[i].id == id {
                return Some(i);
            }
            i = i + 1;
        }
        None
    }

    /// Adds a comment to the cache, in place of any cached comment with the
    /// same identifier. Nothing is written to the documents.
    pub fn add_comment(&mut self, comment: &Comment)
        requires
            old(self).wf(),
        ensures
            final(self).wf(),
            final(self)@ == added(old(self)@, *comment),
            final(self).same_setup(old(self)),
    {
        proof {
            lemma_remove_id_unique(self@, comment.id);
            lemma_added_unique(self@, *comment);
        }
        match self.position_of(comment.id) {
            Some(i) => {
                proof {
                    lemma_remove_id_at(self@, comment.id, i as int);
                }
                self.comments.remove(i);
            },
            None => {
                proof {
                    lemma_remove_id_absent(self@, comment.id);
                }
            },
        }
        self.comments.push(comment.duplicate());
    }

    /// Removes the first cached comment with the identifier of `comment`,
    /// telling whether there was one. Nothing is deleted from the documents.
    pub fn remove_comment(&mut self, comment: &Comment) -> (r: bool)
        requires
            old(self).wf(),
        ensures
            final(self).wf(),
            r == has_id(old(self)@, comment.id),
            final(self)@ == remove_id(old(self)@, comment.id),
            final(self).same_setup(old(self)),
    {
        proof {
            lemma_remove_id_unique(self@, comment.id);
        }
        match self.position_of(comment.id) {
            Some(i) => {
                proof {
                    lemma_remove_id_at(self@, comment.id, i as int);
                }
                self.comments.remove(i);
                true
            },
            None => {
                proof {
                    lemma_remove_id_absent(self@, comment.id);
                }
                false
            },
        }
    }

    /// Empties the cache.
    fn remove_all_comments(&mut self)
        ensures
            final(self).wf(),
            final(self)@ == Seq::<Comment>::empty(),
            final(self).same_setup(old(self)),
    {
        self.comments.clear();
    }

    /// Adds each of the comments read from the documents to the cache, in
    /// their order; the cache is not cleared first.
    pub fn load_all_comments(&mut self, loaded: Vec<Comment>)
        requires
            old(self).wf(),
        ensures
            final(self).wf(),
            final(self)@ == added_all(old(self)@, loaded@),
            final(self).same_setup(old(self)),
    {
        let mut i: usize = 0;
        while i < loaded.len()
            invariant
                0 <= i <= loaded@.len(),
                self.wf(),
                self@ == added_all(old(self)@, loaded@.subrange(0, i as int)),
                self.same_setup(old(self)),
            decreases loaded@.len() - i,
        {
            proof {
                let next = loaded@.subrange(0, i as int + 1);
                assert(next.drop_last() =~= loaded@.subrange(0, i as int));
            }
            self.add_comment(&loaded[i]);
            i = i + 1;
        }
        proof {
            assert(loaded@.subrange(0, loaded@.len() as int) =~= loaded@);
        }
    }

    /// Replaces the cache, in one step, by the comments read from the
    /// documents.
    pub fn reload_all_comments(&mut self, loaded: Vec<Comment>)
        requires
            old(self).wf(),
        ensures
            final(self).wf(),
            final(self)@ == added_all(Seq::<Comment>::empty(), loaded@),
            final(self).same_setup(old(self)),
    {
        self.remove_all_comments();
        self.load_all_comments(loaded);
    }

    /// The cached comments posted against `path`, in ascending order of time.
    pub fn comments_for_path(&self, path: &str) -> (r: Vec<Comment>)
        ensures
            sorted_by_time(r@),
            r@.to_multiset() == on_path(self@, path@).to_multiset(),
    {
        broadcast use vstd::seq_lib::group_to_multiset_ensures;

        let wanted = path.to_owned();
        let mut out: Vec<Comment> = Vec::new();
        let mut i: usize = 0;
        proof {
            assert(self.comments@.subrange(0, 0) =~= Seq::<Comment>::empty());
            reveal(Seq::filter);
            assert(out@.to_multiset() =~= on_path(Seq::<Comment>::empty(), path@).to_multiset()) by {
                broadcast use vstd::multiset::group_multiset_axioms;
                broadcast use vstd::seq_lib::to_multiset_len;
            }
        }
        while i < self.comments.len()
            invariant
                0 <= i <= self.comments@.len(),
                wanted@ == path@,
                sorted_by_time(out@),
                out@.to_multiset() == on_path(self.comments@.subrange(0, i as int), path@).to_multiset(),
            decreases self.comments@.len() - i,
        {
            let c = &self.comments[i];
            let ghost prefix = self.comments@.subrange(0, i as int);
            let ghost pred = |x: Comment| x.path@ == path@;
            proof {
                assert(self.comments@.subrange(0, i as int + 1) =~= prefix.push(*c));
                prefix.lemma_filter_push(*c, pred);
            }
            if c.path == wanted {
                let mut j: usize = out.len();
                while j > 0 && out[j - 1].timestamp > c.timestamp
                    invariant
                        0 <= j <= out@.len(),
                        forall|k: int| j <= k < out@.len() ==> #[trigger] out@[k].timestamp > c.timestamp,
                    decreases j,
                {
                    j = j - 1;
                }
                let ghost before = out@;
                out.insert(j, c.duplicate());
                proof {
                    before.insert_ensures(j as int, *c);
                    vstd::seq_lib::to_multiset_insert(before, j as int, *c);
                    assert(pred(*c));
                    assert(on_path(prefix.push(*c), path@) == on_path(prefix, path@).push(*c));
                    vstd::seq_lib::to_multiset_build(on_path(prefix, path@), *c);
                    assert(forall|k: int| 0 <= k < j ==> #[trigger] before[k].timestamp <= c.timestamp) by {
                        if j > 0 {
                            assert(before[j - 1].timestamp <= c.timestamp);
                        }
                    }
                    assert forall|a: int, b: int| 0 <= a < b < out@.len() implies #[trigger] out@[a].timestamp
                        <= #[trigger] out@[b].timestamp by {
                        if a < j && b < j {
                            assert(out@[a] == before[a] && out@[b] == before[b]);
                        } else if a < j && b == j {
                            assert(out@[a] == before[a]);
                        } else if a < j {
                            assert(out@[a] == before[a] && out@[b] == before[b - 1]);
                        } else if a == j {
                            assert(out@[b] == before[b - 1]);
                        } else {
                            assert(out@[a] == before[a - 1] && out@[b] == before[b - 1]);
                        }
                    }
                }
            } else {
                proof {
                    assert(!pred(*c));
                    assert(on_path(prefix.push(*c), path@) == on_path(prefix, path@));
                }
            }
            i = i + 1;
        }
        proof {
            assert(self.comments@.subrange(0, self.comments@.len() as int) =~= self.comments@);
        }
        out
    }

    /// The path of the document for the comment with identifier `id`: the
    /// root directory, a slash and the document name.
    pub fn document_path(&self, id: u128) -> (r: String)
        ensures
            r@ == self.root() + "/"@ + document_name(id),
    {
        let mut p = self.path.clone();
        p.append("/");
        let name = document_file_name(id);
        p.append(name.as_str());
        p
    }

    /// The pattern that matches every document directly under the root
    /// directory.
    pub fn document_pattern(&self) -> (r: String)
        ensures
            r@ == self.root() + "/*"@ + DOCUMENT_EXTENSION@,
    {
        let mut p = self.path.clone();
        p.append("/*");
        p.append(DOCUMENT_EXTENSION);
        p
    }

    /// Completes the saving of `comment` once the attempt to write its
    /// document has given `written`: on success the comment is added to the
    /// cache and whoever is to hear of it is returned; on failure nothing
    /// changes and the failure is returned.
    pub fn save_comment(&mut self, comment: &Comment, written: Result<(), StoreError>) -> (r:
        Result<Option<Notifier>, StoreError>)
        requires
            old(self).wf(),
        ensures
            final(self).wf(),
            final(self).same_setup(old(self)),
            match written {
                Ok(()) => {
                    &&& final(self)@ == added(old(self)@, *comment)
                    &&& r == Ok::<Option<Notifier>, StoreError>(old(self).notifier_spec())
                },
                Err(e) => {
                    &&& final(self)@ == old(self)@
                    &&& r == Err::<Option<Notifier>, StoreError>(e)
                },
            },
    {
        match written {
            Ok(()) => {
                self.add_comment(comment);
                Ok(self.notifier())
            },
            Err(e) => Err(e),
        }
    }

    /// Completes the deletion of `comment` once the attempt to delete its
    /// document has given `removed`: on success the comment leaves the cache;
    /// on failure nothing changes and the failure is returned.
    pub fn delete_comment(&mut self, comment: &Comment, removed: Result<(), StoreError>) -> (r:
        Result<(), StoreError>)
        requires
            old(self).wf(),
        ensures
            final(self).wf(),
            final(self).same_setup(old(self)),
            r == removed,
            match removed {
                Ok(()) => final(self)@ == remove_id(old(self)@, comment.id),
                Err(_) => final(self)@ == old(self)@,
            },
    {
        if removed.is_ok() {
            self.remove_comment(comment);
        }
        removed
    }
}

} // verus!
