//! Use-site paths: finding every value that a path names.

use crate::session::types::{
    copy_path, JsValue, SegmentModel, SessionError, SessionStatus, SessionValuePathSegment,
};
use crate::session::types;
use crate::text;
use vstd::prelude::*;
use vstd::string::StringExecFns;

verus! {

/// A walk along a use-site path. The walk holds the values found so far; each
/// further segment replaces every value by those that it leads to, in order.
/// Sequences, sets and maps fan out to all that they contain.
pub struct PathWalk {
    path: Vec<SessionValuePathSegment>,
    position: usize,
    todo: Vec<JsValue>,
    cursor: usize,
    done: Vec<JsValue>,
    role: String,
}

/// The mathematical form of a walk: the segment it stands at, the values that
/// this segment has yet to replace, and those that it led to.
#[verifier::ext_equal]
pub struct WalkModel {
    pub path: Seq<SegmentModel>,
    pub position: nat,
    pub todo: Seq<JsValue>,
    pub done: Seq<JsValue>,
    pub role: Seq<char>,
}

/// What the walk has to learn of its current value.
pub enum PathRequest {
    /// The named property of the value.
    Property { value: JsValue, name: String },
    /// Whether the value is the named variant.
    Variant { value: JsValue, name: String },
    /// Whether the value is null.
    NullCheck { value: JsValue },
    /// The elements of the array.
    Elements { value: JsValue },
    /// The members of the set.
    Members { value: JsValue },
    /// The entries of the map.
    Entries { value: JsValue },
    /// Nothing more: the walk has found its values.
    Finished,
}

impl WalkModel {
    /// The segment that the walk stands at.
    pub open spec fn segment(self) -> SegmentModel {
        self.path[self.position as int]
    }

    pub open spec fn finished(self) -> bool {
        self.position >= self.path.len()
    }

    /// The walk moved on to where it needs an answer or has finished. The items
    /// and errors of a stream are not part of the value that carries the
    /// stream, so such a segment leads to nothing.
    pub open spec fn settled(self) -> WalkModel
        decreases self.path.len() - self.position, self.todo.len(),
    {
        if self.finished() {
            self
        } else if self.todo.len() == 0 {
            WalkModel {
                position: self.position + 1,
                todo: self.done,
                done: Seq::empty(),
                ..self
            }.settled()
        } else if self.segment() is StreamItem || self.segment() is StreamError {
            WalkModel { todo: self.todo.drop_first(), ..self }.settled()
        } else {
            self
        }
    }

    /// The walk after its current value was replaced by `found`.
    pub open spec fn supplied(self, found: Seq<JsValue>) -> WalkModel {
        WalkModel { todo: self.todo.drop_first(), done: self.done + found, ..self }
    }
}

impl PathWalk {
    pub closed spec fn wf(self) -> bool {
        self.cursor <= self.todo.len() && self.position <= self.path.len()
    }
}

impl View for PathWalk {
    type V = WalkModel;

    closed spec fn view(&self) -> WalkModel {
        WalkModel {
            path: types::path_model(self.path@),
            position: self.position as nat,
            todo: self.todo@.skip(self.cursor as int),
            done: self.done@,
            role: self.role@,
        }
    }
}

/// Where a path starts: an argument of the call or its result.
pub open spec fn root_value(
    root: SegmentModel,
    args: Seq<JsValue>,
    receiver_offset: int,
    return_value: Option<JsValue>,
) -> Option<JsValue> {
    match root {
        SegmentModel::Argument(index) => if receiver_offset + index < args.len() {
            Some(args[receiver_offset + index])
        } else {
            None
        },
        SegmentModel::Return => return_value,
        _ => None,
    }
}

/// Why a path has no start.
pub open spec fn root_error(path: Seq<SegmentModel>, role: Seq<char>) -> Seq<char> {
    if path.len() == 0 {
        role + " use-site path is empty"@
    } else {
        match path[0] {
            SegmentModel::Argument(index) => role + " argument path index "@ + text::decimal(
                index as int,
            ) + " is out of range"@,
            SegmentModel::Return => "return path cannot be resolved before a native result"@,
            _ => role + " use-site path has an invalid root"@,
        }
    }
}

/// A walk starts at the root of its path; without a root value there is none.
pub open spec fn starts(
    path: Seq<SegmentModel>,
    args: Seq<JsValue>,
    receiver_offset: int,
    return_value: Option<JsValue>,
    role: Seq<char>,
    r: Result<PathWalk, SessionError>,
) -> bool {
    let root = if path.len() == 0 {
        None
    } else {
        root_value(path[0], args, receiver_offset, return_value)
    };
    match root {
        Some(value) => r matches Ok(walk) && walk.wf() && walk@ == (WalkModel {
            path,
            position: 1,
            todo: seq![value],
            done: Seq::empty(),
            role,
        }),
        None => r matches Err(e) && e.is(SessionStatus::InvalidArg, root_error(path, role)),
    }
}

impl PathWalk {
    /// Starts at the root of `path`. Without a root value there is no walk.
    pub fn start(
        path: &Vec<SessionValuePathSegment>,
        args: &Vec<JsValue>,
        receiver_offset: usize,
        return_value: Option<JsValue>,
        role: &str,
    ) -> (r: Result<PathWalk, SessionError>)
        ensures
            starts(
                types::path_model(path@),
                args@,
                receiver_offset as int,
                return_value,
                role@,
                r,
            ),
    {
        if path.len() == 0 {
            return Err(SessionError::invalid_joined(role, " use-site path is empty"));
        }
        assert(types::path_model(path@)[0] == path@[0]@);
        let root: JsValue = match &path[0] {
            SessionValuePathSegment::Argument(index) => {
                let position: u128 = receiver_offset as u128 + *index as u128;
                if position < args.len() as u128 {
                    args[position as usize]
                } else {
                    let mut reason: String = role.to_owned();
                    reason.append(" argument path index ");
                    text::push_decimal(&mut reason, *index as u64);
                    reason.append(" is out of range");
                    return Err(SessionError { status: SessionStatus::InvalidArg, reason });
                }
            },
            SessionValuePathSegment::Return => match return_value {
                Some(value) => value,
                None => return Err(
                    SessionError::invalid("return path cannot be resolved before a native result"),
                ),
            },
            _ => return Err(
                SessionError::invalid_joined(role, " use-site path has an invalid root"),
            ),
        };
        let mut todo: Vec<JsValue> = Vec::new();
        todo.push(root);
        let walk = PathWalk {
            path: copy_path(path),
            position: 1,
            todo,
            cursor: 0,
            done: Vec::new(),
            role: role.to_owned(),
        };
        assert(types::path_model(walk.path@).len() == types::path_model(path@).len());
        assert(walk@.todo =~= seq![root]);
        Ok(walk)
    }

    /// Moves on to the next question. A root segment inside a path is an error
    /// once a value reaches it.
    pub fn request(&mut self) -> (r: Result<PathRequest, SessionError>)
        requires
            old(self).wf(),
        ensures
            final(self).wf(),
            final(self)@ == old(self)@.settled(),
            ({
                let walk = old(self)@.settled();
                match r {
                    Ok(PathRequest::Finished) => walk.finished(),
                    Ok(PathRequest::Property { value, name }) => !walk.finished() && value
                        == walk.todo[0] && walk.segment() == SegmentModel::Field(name@),
                    Ok(PathRequest::Variant { value, name }) => !walk.finished() && value
                        == walk.todo[0] && walk.segment() == SegmentModel::Variant(name@),
                    Ok(PathRequest::NullCheck { value }) => !walk.finished() && value
                        == walk.todo[0] && walk.segment() is Optional,
                    Ok(PathRequest::Elements { value }) => !walk.finished() && value
                        == walk.todo[0] && walk.segment() is SequenceElement,
                    Ok(PathRequest::Members { value }) => !walk.finished() && value
                        == walk.todo[0] && walk.segment() is SetElement,
                    Ok(PathRequest::Entries { value }) => !walk.finished() && value
                        == walk.todo[0] && (walk.segment() is MapKey || walk.segment() is MapValue),
                    Err(e) => {
                        &&& !walk.finished()
                        &&& walk.segment() is Argument || walk.segment() is Return
                        &&& e.is(
                            SessionStatus::InvalidArg,
                            walk.role + " use-site path contains a nested root"@,
                        )
                    },
                }
            }),
            !old(self)@.settled().finished() ==> old(self)@.settled().todo.len() > 0,
    {
        let ghost target = self@.settled();
        while self.position < self.path.len()
            invariant
                self.wf(),
                self@.settled() == target,
            ensures
                self.wf(),
                self@ == target,
                self.position >= self.path.len() || self.cursor < self.todo.len(),
                self.position < self.path.len() ==> !(self@.segment() is StreamItem
                    || self@.segment() is StreamError),
            decreases self.path.len() - self.position, self.todo.len() - self.cursor,
        {
            if self.cursor >= self.todo.len() {
                let ghost before = self@;
                let mut found: Vec<JsValue> = Vec::new();
                std::mem::swap(&mut found, &mut self.done);
                self.todo = found;
                self.cursor = 0;
                self.position = self.position + 1;
                assert(before.todo =~= Seq::empty());
                assert(self@.todo =~= before.done);
                assert(self@.done =~= Seq::empty());
            } else {
                let stream: bool = matches!(
                    self.path[self.position],
                    SessionValuePathSegment::StreamItem | SessionValuePathSegment::StreamError
                );
                if !stream {
                    assert(self@ == target);
                    break ;
                }
                let ghost before = self@;
                self.cursor = self.cursor + 1;
                assert(self@.todo =~= before.todo.drop_first());
            }
        }
        if self.position >= self.path.len() {
            return Ok(PathRequest::Finished);
        }
        let value: JsValue = self.todo[self.cursor];
        assert(value == self@.todo[0]);
        match &self.path[self.position] {
            SessionValuePathSegment::Field(name) => Ok(
                PathRequest::Property { value, name: name.clone() },
            ),
            SessionValuePathSegment::Variant(name) => Ok(
                PathRequest::Variant { value, name: name.clone() },
            ),
            SessionValuePathSegment::Optional => Ok(PathRequest::NullCheck { value }),
            SessionValuePathSegment::SequenceElement => Ok(PathRequest::Elements { value }),
            SessionValuePathSegment::SetElement => Ok(PathRequest::Members { value }),
            SessionValuePathSegment::MapKey => Ok(PathRequest::Entries { value }),
            SessionValuePathSegment::MapValue => Ok(PathRequest::Entries { value }),
            _ => Err(
                SessionError::invalid_joined(
                    self.role.as_str(),
                    " use-site path contains a nested root",
                ),
            ),
        }
    }

    /// Replaces the current value by the property that was read.
    pub fn supply_property(&mut self, property: JsValue)
        requires
            old(self).wf(),
            old(self)@.todo.len() > 0,
        ensures
            final(self).wf(),
            final(self)@ == old(self)@.supplied(seq![property]),
    {
        let ghost before = self@;
        self.done.push(property);
        self.cursor = self.cursor + 1;
        assert(self@.todo =~= before.todo.drop_first());
        assert(self@.done =~= before.done + seq![property]);
    }

    /// Keeps the current value, a matching variant or a present optional, or
    /// drops it.
    pub fn supply_choice(&mut self, keep: bool)
        requires
            old(self).wf(),
            old(self)@.todo.len() > 0,
        ensures
            final(self).wf(),
            final(self)@ == old(self)@.supplied(
                if keep {
                    seq![old(self)@.todo[0]]
                } else {
                    Seq::empty()
                },
            ),
    {
        let ghost before = self@;
        if keep {
            self.done.push(self.todo[self.cursor]);
        }
        self.cursor = self.cursor + 1;
        assert(self@.todo =~= before.todo.drop_first());
        proof {
            if keep {
                assert(self@.done =~= before.done + seq![before.todo[0]]);
            } else {
                assert(self@.done =~= before.done + Seq::empty());
            }
        }
    }

    /// Replaces the current value by the elements or members read from it.
    pub fn supply_elements(&mut self, elements: Vec<JsValue>)
        requires
            old(self).wf(),
            old(self)@.todo.len() > 0,
        ensures
            final(self).wf(),
            final(self)@ == old(self)@.supplied(elements@),
    {
        let ghost before = self@;
        let mut elements = elements;
        self.done.append(&mut elements);
        self.cursor = self.cursor + 1;
        assert(self@.todo =~= before.todo.drop_first());
    }

    /// Replaces the current map by its keys or by its values, as the segment
    /// asks.
    pub fn supply_entries(&mut self, entries: Vec<(JsValue, JsValue)>)
        requires
            old(self).wf(),
            !old(self)@.finished(),
            old(self)@.todo.len() > 0,
        ensures
            final(self).wf(),
            final(self)@ == old(self)@.supplied(
                Seq::new(
                    entries@.len(),
                    |i: int|
                        if old(self)@.segment() is MapKey {
                            entries@[i].0
                        } else {
                            entries@[i].1
                        },
                ),
            ),
    {
        let ghost before = self@;
        let keys: bool = matches!(self.path[self.position], SessionValuePathSegment::MapKey);
        assert(keys == (before.segment() is MapKey));
        for i in 0..entries.len()
            invariant
                self.wf(),
                self.position == old(self).position,
                self.path == old(self).path,
                self.todo == old(self).todo,
                self.cursor == old(self).cursor,
                self.role == old(self).role,
                self.done@ == before.done + Seq::new(
                    i as nat,
                    |j: int|
                        if keys {
                            entries@[j].0
                        } else {
                            entries@[j].1
                        },
                ),
        {
            if keys {
                self.done.push(entries[i].0);
            } else {
                self.done.push(entries[i].1);
            }
        }
        self.cursor = self.cursor + 1;
        assert(self@.todo =~= before.todo.drop_first());
        assert(self@.done =~= before.supplied(
            Seq::new(
                entries@.len(),
                |i: int|
                    if before.segment() is MapKey {
                        entries@[i].0
                    } else {
                        entries@[i].1
                    },
            ),
        ).done);
    }

    /// The values that a finished walk has found.
    pub fn into_values(self) -> (values: Vec<JsValue>)
        requires
            self.wf(),
        ensures
            values@ == self@.todo,
    {
        let mut todo = self.todo;
        todo.split_off(self.cursor)
    }
}

/// Every value replaced by those that `look` leads to, in order.
pub open spec fn expanded(values: Seq<JsValue>, look: spec_fn(JsValue) -> Seq<JsValue>) -> Seq<
    JsValue,
>
    decreases values.len(),
{
    if values.len() == 0 {
        Seq::empty()
    } else {
        look(values[0]) + expanded(values.drop_first(), look)
    }
}

/// What a path names, starting from `values`: each segment in turn replaces
/// every value by those that it leads to.
pub open spec fn named_values(
    values: Seq<JsValue>,
    path: Seq<SegmentModel>,
    look: spec_fn(SegmentModel, JsValue) -> Seq<JsValue>,
) -> Seq<JsValue>
    decreases path.len(),
{
    if path.len() == 0 {
        values
    } else {
        named_values(
            expanded(values, |value: JsValue| look(path[0], value)),
            path.drop_first(),
            look,
        )
    }
}

impl WalkModel {
    /// What the walk will find if every answer agrees with `look`.
    pub open spec fn outcome(
        self,
        look: spec_fn(SegmentModel, JsValue) -> Seq<JsValue>,
    ) -> Seq<JsValue> {
        if self.finished() {
            self.todo
        } else {
            named_values(
                self.done + expanded(self.todo, |value: JsValue| look(self.segment(), value)),
                self.path.skip(self.position as int + 1),
                look,
            )
        }
    }
}

/// A walk finds what its path names: it starts out with that outcome.
pub proof fn walk_starts_at_its_path(
    walk: WalkModel,
    root: JsValue,
    look: spec_fn(SegmentModel, JsValue) -> Seq<JsValue>,
)
    requires
        walk.path.len() > 0,
        walk.position == 1,
        walk.todo == seq![root],
        walk.done.len() == 0,
    ensures
        walk.outcome(look) == named_values(seq![root], walk.path.drop_first(), look),
{
    let rest = walk.path.drop_first();
    if walk.path.len() > 1 {
        let f = |value: JsValue| look(walk.segment(), value);
        let g = |value: JsValue| look(rest[0], value);
        assert(rest[0] == walk.segment());
        assert(f =~= g);
        assert(walk.done + expanded(walk.todo, f) =~= expanded(walk.todo, f));
        assert(rest.drop_first() =~= walk.path.skip(2));
    }
}

/// Moving on keeps the outcome, given that stream segments lead to nothing.
pub proof fn settling_keeps_the_outcome(
    walk: WalkModel,
    look: spec_fn(SegmentModel, JsValue) -> Seq<JsValue>,
)
    requires
        forall|value: JsValue| #[trigger]
            look(SegmentModel::StreamItem, value) == Seq::<JsValue>::empty(),
        forall|value: JsValue| #[trigger]
            look(SegmentModel::StreamError, value) == Seq::<JsValue>::empty(),
    ensures
        walk.settled().outcome(look) == walk.outcome(look),
    decreases walk.path.len() - walk.position, walk.todo.len(),
{
    if walk.finished() {
    } else if walk.todo.len() == 0 {
        let next = WalkModel {
            position: walk.position + 1,
            todo: walk.done,
            done: Seq::empty(),
            ..walk
        };
        settling_keeps_the_outcome(next, look);
        let f = |value: JsValue| look(walk.segment(), value);
        assert(walk.done + expanded(walk.todo, f) =~= walk.done);
        let rest = walk.path.skip(walk.position as int + 1);
        if !next.finished() {
            let g = |value: JsValue| look(next.segment(), value);
            let h = |value: JsValue| look(rest[0], value);
            assert(rest[0] == next.segment());
            assert(g =~= h);
            assert(next.done + expanded(next.todo, g) =~= expanded(next.todo, g));
            assert(rest.drop_first() =~= walk.path.skip(next.position as int + 1));
        }
    } else if walk.segment() is StreamItem || walk.segment() is StreamError {
        let next = WalkModel { todo: walk.todo.drop_first(), ..walk };
        settling_keeps_the_outcome(next, look);
        let f = |value: JsValue| look(walk.segment(), value);
        assert(f(walk.todo[0]) =~= Seq::empty());
        assert(f(walk.todo[0]) + expanded(next.todo, f) =~= expanded(next.todo, f));
    }
}

/// Supplying what `look` says of the current value keeps the outcome.
pub proof fn supplying_keeps_the_outcome(
    walk: WalkModel,
    look: spec_fn(SegmentModel, JsValue) -> Seq<JsValue>,
)
    requires
        !walk.finished(),
        walk.todo.len() > 0,
    ensures
        walk.supplied(look(walk.segment(), walk.todo[0])).outcome(look) == walk.outcome(look),
{
    let f = |value: JsValue| look(walk.segment(), value);
    let found = f(walk.todo[0]);
    let rest = expanded(walk.todo.drop_first(), f);
    assert((walk.done + found) + rest =~= walk.done + (found + rest));
}

} // verus!
