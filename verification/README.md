# robs

A streaming and recording studio. The crate is a library verified with Verus
(`src/`), a program around it (`app/`) and tests (`tests/`).

The library holds the studio's logic with its contracts and proofs:

- scenes and their items (z-order, transforms, crops, visibility), scene
  collections and named registries;
- video frames, cropping, bilinear scaling,
  background fill and compositing of packed RGBA/BGRA frames, red/blue
  exchange;
- encoders (x264, FFmpeg H.264, NVENC, AAC): presets, parameters, the `ffmpeg`
  command lines and packet numbering; encoder detection and factories;
- outputs: RTMP connection loop decisions and figures, file recordings and the
  recording command line built from the current scene;
- capture and test sources, silence, the audio mixer's block layout;
- chat messages, the bounded chat history, IRC line parsing, connection lookup;
- profiles and settings, streaming destinations, plugins' registration.

The program runs what the library cannot: processes, files, the network,
asynchronous drivers of sources, encoders and outputs, floating-point
target sizes, positions and blending, and serialisation of profiles.
