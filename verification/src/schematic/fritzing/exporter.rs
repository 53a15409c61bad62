use super::archive::entry_outcome;
use super::archive::extract;
use super::archive::zip_entries;
use super::generator::file_stem;
use super::generator::SketchReference;
use crate::errors::Error;
use crate::remote::address_under;
use crate::remote::fetched_view;
use crate::remote::under;
use vstd::prelude::*;

verus! {

/// The media type of an exported image: the views come as SVG.
pub const IMAGE_MEDIA_TYPE: &'static str = "image/svg+xml";

/// The name of the archive entry that holds the breadboard view of the sketch with the
/// stem `stem`.
pub open spec fn image_name(stem: Seq<char>) -> Seq<char> {
    stem + "_breadboard.svg"@
}

/// What the answer of the export service comes to for the sketch file `file_name`: a
/// failure of the exchange as it is, and else what looking for the breadboard view in
/// the archive comes to.
pub open spec fn image_outcome(file_name: Seq<char>, fetched: Result<Seq<u8>, Error>) -> Result<
    Seq<u8>,
    Error,
> {
    match fetched {
        Ok(archive) => entry_outcome(zip_entries(archive), image_name(file_stem(file_name))),
        Err(failure) => Err(failure),
    }
}

/// Where the export service answers with an archive that holds the breadboard view of
/// the sketch, the image is the bytes of that entry, as they are.
pub proof fn lemma_image_is_the_entry(
    file_name: Seq<char>,
    archive: Seq<u8>,
    entries: Map<Seq<char>, Option<Seq<u8>>>,
    bytes: Seq<u8>,
)
    requires
        zip_entries(archive) == Some(entries),
        entries.contains_key(image_name(file_stem(file_name))),
        entries[image_name(file_stem(file_name))] == Some(bytes),
    ensures
        image_outcome(file_name, Ok(archive)) == Ok::<Seq<u8>, Error>(bytes),
{
}

/// Where the export service answers with an archive that has no entry for the
/// breadboard view of the sketch, the image is not found: the outcome is that failure,
/// and no image, not even an empty one.
pub proof fn lemma_missing_entry_is_not_found(
    file_name: Seq<char>,
    archive: Seq<u8>,
    entries: Map<Seq<char>, Option<Seq<u8>>>,
)
    requires
        zip_entries(archive) == Some(entries),
        !entries.contains_key(image_name(file_stem(file_name))),
    ensures
        image_outcome(file_name, Ok(archive)) == Err::<Seq<u8>, Error>(Error::NotFound),
{
}

/// A failure of the exchange with the export service is the outcome of the export: no
/// image comes of it.
pub proof fn lemma_failed_exchange_is_the_outcome(file_name: Seq<char>, failure: Error)
    ensures
        image_outcome(file_name, Err(failure)) == Err::<Seq<u8>, Error>(failure),
{
}

/// A failure of transport on the way to the export service is reported as one: the
/// export gives no image, whatever the sketch.
pub proof fn lemma_transport_failure_is_surfaced(file_name: Seq<char>)
    ensures
        image_outcome(file_name, Err(Error::Transport)) == Err::<Seq<u8>, Error>(Error::Transport),
{
}

/// Exporter is responsible for exporting of Fritzing sketches to a list of SVG files.
#[derive(Clone)]
pub struct Exporter {
    /// Base portion of the URL pointing to generated schematic sketches. It's used to
    /// construct full schematic download URL used by Fritzing server.
    schematic_base_url: String,
    /// URL of the Fritzing server that will do the sketch-to-svg export.
    api_url: String,
}

impl Exporter {
    /// Base portion of the URL pointing to generated schematic sketches.
    pub closed spec fn schematic_base_url(&self) -> Seq<char> {
        self.schematic_base_url@
    }

    /// URL of the Fritzing server.
    pub closed spec fn api_url(&self) -> Seq<char> {
        self.api_url@
    }

    /// Returns a ready exporter instance.
    ///
    /// # Arguments
    ///
    /// * `schematic_base_url` - Base portion of the URL pointing to generated schematic sketches.
    /// * `api_url` - Address of the Fritzing server.
    pub fn new(schematic_base_url: String, api_url: String) -> (exporter: Self)
        ensures
            exporter.schematic_base_url() == schematic_base_url@,
            exporter.api_url() == api_url@,
    {
        Exporter { schematic_base_url, api_url }
    }

    /// The URL that has the Fritzing server export the sketch file `file_name`: the path
    /// `svg-tcp` under the address of the server, with one slash between the two, and
    /// after it the address under which the server can fetch the sketch itself. It is
    /// handed that address, not the sketch.
    pub open spec fn archive_address(&self, file_name: Seq<char>) -> Seq<char> {
        address_under(self.api_url(), "/svg-tcp/"@ + self.schematic_base_url() + file_name)
    }

    /// Computes [`Exporter::archive_address`].
    ///
    /// # Arguments
    ///
    /// * `file_name` - name of the Fritzing sketch file to extract SVG from.
    pub fn archive_url(&self, file_name: &str) -> (url: String)
        ensures
            url@ == self.archive_address(file_name@),
    {
        let mut path = "/svg-tcp/".to_string();
        path.append(self.schematic_base_url.as_str());
        path.append(file_name);
        under(self.api_url.as_str(), path.as_str())
    }

    /// Exports Fritzing sketch into SVG file (only breadboard view is extracted right now),
    /// from the answer to a request for [`Exporter::archive_url`].
    ///
    /// # Arguments
    ///
    /// * `sketch_path` - The generated sketch file.
    /// * `fetched` - The outcome of the exchange: the archive of the exported views.
    pub fn export_sketch_to_svg(
        &self,
        sketch_path: &SketchReference,
        fetched: Result<Vec<u8>, Error>,
    ) -> (image: Result<Vec<u8>, Error>)
        ensures
            match image_outcome(sketch_path.file_name@, fetched_view(fetched)) {
                Ok(bytes) => image is Ok && image->Ok_0@ == bytes,
                Err(failure) => image == Err::<Vec<u8>, Error>(failure),
            },
    {
        let archive = match fetched {
            Ok(archive) => archive,
            Err(failure) => {
                return Err(failure);
            },
        };
        let mut name = sketch_path.file_stem();
        name.append("_breadboard.svg");
        extract(archive, name.as_str())
    }
}

} // verus!
