use vstd::prelude::*;

verus! {

/// What a project record holds, as mathematical values.
pub struct ProjectView {
    pub name: Seq<char>,
    pub description: Seq<char>,
    pub link: Seq<char>,
    pub verified: bool,
    pub category: Seq<char>,
    pub tags: Seq<Seq<char>>,
    pub metadata: Seq<char>,
}

impl ProjectView {
    /// The same record, marked as verified.
    pub open spec fn mark_verified(self) -> ProjectView {
        ProjectView { verified: true, ..self }
    }
}

/// The texts of a list of tags.
pub open spec fn tags_view(tags: Seq<String>) -> Seq<Seq<char>> {
    tags.map_values(|t: String| t@)
}

/// One project of the registry. It has no identity of its own: it is known by
/// its position in the registry.
#[derive(Debug, PartialEq, Eq)]
pub struct Project {
    pub name: String,
    pub description: String,
    pub link: String,
    pub verified: bool,
    pub category: String,
    pub tags: Vec<String>,
    pub metadata: String,
}

impl View for Project {
    type V = ProjectView;

    open spec fn view(&self) -> ProjectView {
        ProjectView {
            name: self.name@,
            description: self.description@,
            link: self.link@,
            verified: self.verified,
            category: self.category@,
            tags: tags_view(self.tags@),
            metadata: self.metadata@,
        }
    }
}

/// A copy of a list of tags.
fn copy_tags(tags: &Vec<String>) -> (r: Vec<String>)
    ensures
        r@ == tags@,
{
    let mut r: Vec<String> = Vec::new();
    let mut i: usize = 0;
    while i < tags.len()
        invariant
            i <= tags@.len(),
            r@ == tags@.subrange(0, i as int),
        decreases tags@.len() - i,
    {
        r.push(tags[i].clone());
        i = i + 1;
        assert(r@ =~= tags@.subrange(0, i as int));
    }
    assert(r@ =~= tags@);
    r
}

impl Project {
    /// A record made of the given fields.
    pub fn new(
        name: String,
        description: String,
        link: String,
        verified: bool,
        category: String,
        tags: Vec<String>,
        metadata: String,
    ) -> (r: Project)
        ensures
            r@ == (ProjectView {
                name: name@,
                description: description@,
                link: link@,
                verified,
                category: category@,
                tags: tags_view(tags@),
                metadata: metadata@,
            }),
    {
        Project { name, description, link, verified, category, tags, metadata }
    }

    /// A copy of the record, field for field.
    pub fn duplicate(&self) -> (r: Project)
        ensures
            r@ == self@,
    {
        let tags = copy_tags(&self.tags);
        Project {
            name: self.name.clone(),
            description: self.description.clone(),
            link: self.link.clone(),
            verified: self.verified,
            category: self.category.clone(),
            tags,
            metadata: self.metadata.clone(),
        }
    }
}

} // verus!
