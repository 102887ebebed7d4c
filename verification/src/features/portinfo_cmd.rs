//! The portinfo command's metadata: its name, aliases, and documentation.
//! The dispatch over flags and the console loop live in the application
//! shell.

use vstd::prelude::*;

use crate::command_meta::{CommandInfo, Documentation, ExampleDoc, OptionDoc};

verus! {

/// The port diagnostics command.
#[derive(Debug)]
pub struct PortInfoCommand {
    pub info: CommandInfo,
}

impl PortInfoCommand {
    /// Creates the portinfo command with its metadata and documentation.
    pub fn new() -> (r: PortInfoCommand)
        ensures
            r.info.name@ == "portinfo"@,
            r.info.category@ == "network"@,
            r.info.aliases@.len() == 2,
            r.info.documentation is Some,
    {
        let mut aliases: Vec<String> = Vec::new();
        aliases.push(String::from_str("port-who"));
        aliases.push(String::from_str("pw"));
        let info = CommandInfo::new("portinfo", "Muestra que proceso esta usando un puerto")
            .with_category("network").with_aliases(aliases).with_documentation(
            Self::build_documentation(),
        );
        PortInfoCommand { info }
    }

    /// The command metadata.
    pub fn info(&self) -> (r: &CommandInfo)
        ensures
            *r == self.info,
    {
        &self.info
    }

    /// Builds the documentation of the port diagnostics command: its usage,
    /// options and examples.
    pub fn build_documentation() -> (r: Documentation)
        ensures
            r.usage@ == "portinfo [opciones] <puerto>"@,
            r.options@.len() == 23,
            r.examples@.len() == 17,
    {
        Documentation::new("portinfo [opciones] <puerto>").with_long_description(
            "Herramienta completa de diagnostico de red para DevOps y desarrolladores. Identifica procesos en puertos, realiza health checks, analiza seguridad, detecta contenedores Docker, y mas. Soporta Linux, macOS y Windows.",
        ).with_option(
            OptionDoc::flag("kill", "Termina el proceso que usa el puerto (pide confirmacion)")
                .with_short("k"),
        ).with_option(
            OptionDoc::flag("force", "Termina sin confirmacion (requiere --kill)").with_short("f"),
        ).with_option(OptionDoc::flag("udp", "Buscar en UDP ademas de TCP")).with_option(
            OptionDoc::flag("json", "Salida en formato JSON enriquecido").with_short("j"),
        ).with_option(OptionDoc::flag("table", "Salida en formato tabla ASCII")).with_option(
            OptionDoc::flag("csv", "Salida en formato CSV (para exportar)"),
        ).with_option(
            OptionDoc::flag("all", "Lista todos los puertos en estado LISTEN").with_short("a"),
        ).with_option(OptionDoc::flag("overview", "Vista completa de red con estadisticas"))
            .with_option(
            OptionDoc::with_value("range", "Buscar en un rango de puertos (ej: 8000-8100)"),
        ).with_option(OptionDoc::flag("listen", "Solo mostrar puertos en estado LISTEN"))
            .with_option(
            OptionDoc::with_value("pid", "Buscar puertos por PID de proceso").with_short("p"),
        ).with_option(
            OptionDoc::with_value("name", "Filtrar por nombre de proceso").with_short("n"),
        ).with_option(OptionDoc::flag("check", "Realizar health check TCP").with_short("c"))
            .with_option(OptionDoc::flag("http", "Health check HTTP (requiere --check)"))
            .with_option(OptionDoc::flag("ssl", "Obtener info de certificado SSL")).with_option(
            OptionDoc::flag("dev", "Mostrar puertos comunes de desarrollo"),
        ).with_option(
            OptionDoc::with_value("free", "Verificar si puerto esta libre y sugerir alternativas"),
        ).with_option(
            OptionDoc::flag("process", "Mostrar info extendida del proceso").with_short("P"),
        ).with_option(
            OptionDoc::flag("docker", "Detectar y mostrar info de contenedores Docker").with_short(
                "d",
            ),
        ).with_option(
            OptionDoc::flag("security", "Analisis de seguridad de puertos").with_short("s"),
        ).with_option(
            OptionDoc::with_value("watch", "Monitorear el puerto (ej: 2s, 5m)").with_short("w"),
        ).with_option(
            OptionDoc::with_value("host", "Host para health check (default: 127.0.0.1)"),
        ).with_option(OptionDoc::with_value("path", "Path para health check HTTP (default: /)"))
            .with_example(ExampleDoc::new("portinfo 8080", "Muestra quien usa el puerto 8080"))
            .with_example(ExampleDoc::new("portinfo --all", "Lista todos los puertos LISTEN"))
            .with_example(
            ExampleDoc::new("portinfo --overview", "Vista completa con estadisticas"),
        ).with_example(ExampleDoc::new("portinfo 8080 --check", "Health check TCP del puerto"))
            .with_example(ExampleDoc::new("portinfo 8080 --check --http", "Health check HTTP"))
            .with_example(ExampleDoc::new("portinfo 443 --ssl", "Info del certificado SSL"))
            .with_example(
            ExampleDoc::new("portinfo --security", "Analisis de seguridad completo"),
        ).with_example(ExampleDoc::new("portinfo --docker", "Solo puertos de Docker")).with_example(
            ExampleDoc::new("portinfo --dev", "Puertos de desarrollo en uso"),
        ).with_example(ExampleDoc::new("portinfo --free 8080", "Verificar disponibilidad"))
            .with_example(ExampleDoc::new("portinfo --name java", "Puertos del proceso java"))
            .with_example(ExampleDoc::new("portinfo --all --table", "Tabla ASCII formateada"))
            .with_example(ExampleDoc::new("portinfo --all --csv", "Export a CSV")).with_example(
            ExampleDoc::new("portinfo 8080 --kill", "Termina el proceso en el puerto"),
        ).with_example(ExampleDoc::new("portinfo --range 8000-8100", "Rango de puertos"))
            .with_example(ExampleDoc::new("portinfo --pid 1234", "Puertos del proceso 1234"))
            .with_example(ExampleDoc::new("portinfo 8080 --watch 2s", "Monitorea cada 2 segundos"))
    }
}

} // verus!
