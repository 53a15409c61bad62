use super::fritzing::exporter::image_outcome;
use super::fritzing::exporter::Exporter;
use super::fritzing::generator::sketch_name;
use super::fritzing::generator::Generator;
use crate::errors::Error;
use crate::projects::project::Project;
use crate::remote::fetched_view;
use vstd::prelude::*;

verus! {

/// Manages access to the schematic related information.
#[derive(Clone)]
pub struct SchematicProvider {
    /// Instance of the exporter that is responsible for converting schematic into set of SVG files.
    exporter: Exporter,
    /// Instance of the generator that is responsible for generating schematic from the project.
    generator: Generator,
}

impl SchematicProvider {
    /// The exporter of the provider.
    pub closed spec fn exporter(&self) -> Exporter {
        self.exporter
    }

    /// The generator of the provider.
    pub closed spec fn generator(&self) -> Generator {
        self.generator
    }

    /// Returns a ready schematic provider instance.
    ///
    /// # Arguments
    ///
    /// * `schematic_base_url` - Base portion of the URL pointing to generated schematic sketches.
    /// * `export_api_url` - URL of the Export API that will do the sketch-to-svg export.
    /// * `generated_content_folder` - Path on the disk to store generated content to.
    pub fn new(
        schematic_base_url: String,
        export_api_url: String,
        generated_content_folder: String,
    ) -> (provider: Self)
        ensures
            provider.exporter().schematic_base_url() == schematic_base_url@,
            provider.exporter().api_url() == export_api_url@,
            provider.generator().output_folder_path() == generated_content_folder@,
    {
        SchematicProvider {
            exporter: Exporter::new(schematic_base_url, export_api_url),
            generator: Generator::new(generated_content_folder),
        }
    }

    /// The URL to fetch for the schematic of `project`: the URL that has the export
    /// service render the sketch of the project.
    pub fn archive_url(&self, project: &Project) -> (url: String)
        ensures
            url@ == self.exporter().archive_address(sketch_name(project.id@)),
    {
        let sketch = self.generator.sketch_for(project.id.as_str());
        self.exporter.archive_url(sketch.file_name.as_str())
    }

    /// Gets schematic (byte array for the schematic image) for the project, from the answer
    /// to a request for [`SchematicProvider::archive_url`]: names the sketch of the project,
    /// then exports it.
    ///
    /// # Arguments
    ///
    /// * `project` - Project to get schematic for.
    /// * `fetched` - The outcome of the exchange with the export service.
    pub fn get(&self, project: Project, fetched: Result<Vec<u8>, Error>) -> (image: Result<
        Vec<u8>,
        Error,
    >)
        ensures
            match image_outcome(sketch_name(project.id@), fetched_view(fetched)) {
                Ok(bytes) => image is Ok && image->Ok_0@ == bytes,
                Err(failure) => image == Err::<Vec<u8>, Error>(failure),
            },
    {
        let path = match self.generator.generate_sketch(project) {
            Ok(path) => path,
            Err(failure) => {
                return Err(failure);
            },
        };
        self.exporter.export_sketch_to_svg(&path, fetched)
    }
}

} // verus!
