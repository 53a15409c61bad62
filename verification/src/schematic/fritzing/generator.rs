use crate::errors::Error;
use crate::projects::project::Project;
use vstd::prelude::*;

verus! {

/// The name of a sketch file. The drafting service is expected to find a file of this
/// name under the address where generated sketches are served.
#[derive(Clone, Debug, PartialEq, Eq)]
pub struct SketchReference {
    /// The name of the file: a stem, and as a rule a dot and an extension.
    pub file_name: String,
}

/// The name of the sketch file of the project with the identifier `id`: the identifier,
/// a dot, and the extension of bundled Fritzing sketches.
pub open spec fn sketch_name(id: Seq<char>) -> Seq<char> {
    id + "."@ + "fzz"@
}

/// The position of the last dot in `name`, or -1 where `name` holds none.
pub open spec fn last_dot(name: Seq<char>) -> int
    decreases name.len(),
{
    if name.len() == 0 {
        -1
    } else if name.last() == '.' {
        name.len() - 1
    } else {
        last_dot(name.drop_last())
    }
}

/// The stem of a file name: the name up to its last dot. A name without a dot, or with
/// its only dot in front, is its own stem.
pub open spec fn file_stem(name: Seq<char>) -> Seq<char> {
    if last_dot(name) <= 0 {
        name
    } else {
        name.take(last_dot(name))
    }
}

/// The last dot of a name that ends in a dot and an extension without dots is that dot.
proof fn lemma_last_dot_before_extension(stem: Seq<char>, extension: Seq<char>)
    requires
        !extension.contains('.'),
    ensures
        last_dot(stem + seq!['.'] + extension) == stem.len(),
    decreases extension.len(),
{
    let name = stem + seq!['.'] + extension;
    if extension.len() == 0 {
        assert(name.last() == '.');
    } else {
        let shorter = extension.drop_last();
        assert(extension.last() != '.') by {
            assert(extension[extension.len() - 1] == extension.last());
        }
        assert forall|i: int| 0 <= i < shorter.len() implies shorter[i] != '.' by {
            assert(extension[i] == shorter[i]);
        }
        lemma_last_dot_before_extension(stem, shorter);
        assert(name.drop_last() =~= stem + seq!['.'] + shorter);
        assert(name.last() == extension.last());
    }
}

/// The stem of a file name that ends in a dot and an extension without dots is what
/// stands before that dot, where something stands there.
pub proof fn lemma_stem_of_name_with_extension(stem: Seq<char>, extension: Seq<char>)
    requires
        stem.len() > 0,
        !extension.contains('.'),
    ensures
        file_stem(stem + seq!['.'] + extension) == stem,
{
    lemma_last_dot_before_extension(stem, extension);
    assert((stem + seq!['.'] + extension).take(stem.len() as int) =~= stem);
}

/// The stem of the sketch file of a project is the identifier of the project, where
/// the project has one.
pub proof fn lemma_stem_of_sketch_is_the_identifier(id: Seq<char>)
    requires
        id.len() > 0,
    ensures
        file_stem(sketch_name(id)) == id,
{
    reveal_strlit(".");
    reveal_strlit("fzz");
    assert("."@ =~= seq!['.']);
    assert(!"fzz"@.contains('.'));
    lemma_stem_of_name_with_extension(id, "fzz"@);
}

impl SketchReference {
    /// Computes [`file_stem`] of the file name.
    pub fn file_stem(&self) -> (stem: String)
        ensures
            stem@ == file_stem(self.file_name@),
    {
        let name = self.file_name.as_str();
        let length = name.unicode_len();
        let mut dot: usize = 0;
        let mut found = false;
        let mut index: usize = 0;
        for c in it: name.chars()
            invariant
                it.seq() == name@,
                length == name@.len(),
                index == it.index(),
                found ==> dot < index,
                last_dot(name@.take(index as int)) == if found {
                    dot as int
                } else {
                    -1
                },
        {
            assert(name@.take(index + 1).drop_last() =~= name@.take(index as int));
            if c == '.' {
                dot = index;
                found = true;
            }
            index = index + 1;
        }
        assert(name@.take(index as int) =~= name@);
        if found && dot > 0 {
            name.substring_char(0, dot).to_string()
        } else {
            self.file_name.clone()
        }
    }
}

/// Generator is responsible for generation of Fritzing sketches based on the `Project`, its
/// components and defined relationships between them.
#[derive(Clone)]
pub struct Generator {
    /// Path on the disk to store generated content to.
    output_folder_path: String,
}

impl Generator {
    /// The folder that generated content is stored in.
    pub closed spec fn output_folder_path(&self) -> Seq<char> {
        self.output_folder_path@
    }

    /// Returns a ready generator instance.
    ///
    /// # Arguments
    ///
    /// * `output_folder_path` - Path on the disk to store generated content to.
    pub fn new(output_folder_path: String) -> (generator: Self)
        ensures
            generator.output_folder_path() == output_folder_path@,
    {
        Generator { output_folder_path }
    }

    /// Names the sketch file of the project with the identifier `id`.
    pub fn sketch_for(&self, id: &str) -> (sketch: SketchReference)
        ensures
            sketch.file_name@ == sketch_name(id@),
    {
        let mut file_name = id.to_string();
        file_name.append(".");
        file_name.append("fzz");
        SketchReference { file_name }
    }

    /// Takes project and names the Fritzing sketch for it. No sketch is drawn from the
    /// components: a file of that name is expected to be in place already. The name
    /// depends on the identifier of the project alone, and naming never fails.
    ///
    /// # Arguments
    ///
    /// * `project` - Project instance to generate sketch for.
    pub fn generate_sketch(&self, project: Project) -> (sketch: Result<SketchReference, Error>)
        ensures
            sketch is Ok,
            sketch->Ok_0.file_name@ == sketch_name(project.id@),
    {
        Ok(self.sketch_for(project.id.as_str()))
    }
}

} // verus!
