use vstd::prelude::*;

verus! {

/// Documentation of an input or output type: its kind, name, description
/// and, for composite types, the descriptions of its parts.
pub struct DescriptionField {
    pub kind: String,
    pub name: String,
    pub description: String,
    pub fields: Vec<DescriptionField>,
}

impl DescriptionField {
    pub fn new(kind: &str, name: &str, description: &str, fields: Vec<DescriptionField>) -> (r:
        DescriptionField)
        ensures
            r.kind@ == kind@,
            r.name@ == name@,
            r.description@ == description@,
            r.fields@ == fields@,
    {
        DescriptionField {
            kind: kind.to_string(),
            name: name.to_string(),
            description: description.to_string(),
            fields,
        }
    }

    /// A type with no parts, named after its kind and without description.
    pub fn field(kind: &str) -> (r: DescriptionField)
        ensures
            r.kind@ == kind@,
            r.name@ == kind@,
            r.description@ == Seq::<char>::empty(),
            r.fields@.len() == 0,
    {
        let empty = String::new();
        Self::new(kind, kind, empty.as_str(), Vec::new())
    }

    /// An optional value of the described type.
    pub fn optional(inner: DescriptionField) -> (r: DescriptionField)
        ensures
            r.kind@ == "optional"@,
            r.name@ == "optional (see fields)"@,
            r.description@ == "use eventually fields"@,
            r.fields@ == seq![inner],
    {
        let fields = vec![inner];
        assert(fields@ =~= seq![inner]);
        Self::new("optional", "optional (see fields)", "use eventually fields", fields)
    }

    /// A list of values of the described type.
    pub fn array(inner: DescriptionField) -> (r: DescriptionField)
        ensures
            r.kind@ == "array"@,
            r.name@ == "array"@,
            r.description@ == Seq::<char>::empty(),
            r.fields@ == seq![inner],
    {
        let fields = vec![inner];
        assert(fields@ =~= seq![inner]);
        let empty = String::new();
        Self::new("array", "array", empty.as_str(), fields)
    }

    /// The number of described parts directly below this one.
    pub fn len(&self) -> (r: usize)
        ensures
            r == self.fields@.len(),
    {
        self.fields.len()
    }
}

} // verus!
